use unarch::target::derive_dir_path;

#[test]
fn compound_tar_suffix_is_stripped() {
    assert_eq!(derive_dir_path("foo.tar.gz"), "foo");
}

#[test]
fn packaging_marker_under_tar_marker_is_stripped() {
    assert_eq!(derive_dir_path("foo.pkg.tar.xz"), "foo");
}

#[test]
fn single_suffix_is_stripped() {
    assert_eq!(derive_dir_path("bar.zip"), "bar");
}

#[test]
fn short_tar_suffix_strips_once() {
    assert_eq!(derive_dir_path("archive.tgz"), "archive");
    assert_eq!(derive_dir_path("a.tar"), "a");
}

#[test]
fn stacked_tar_markers_strip_twice() {
    assert_eq!(derive_dir_path("foo.tar.tar"), "foo");
}

#[test]
fn packaging_marker_without_tar_marker_stays() {
    assert_eq!(derive_dir_path("x.pkg.zip"), "x.pkg");
}

#[test]
fn name_without_suffix_is_its_own_target() {
    assert_eq!(derive_dir_path("README"), "README");
}

#[test]
fn leading_dot_alone_is_no_suffix() {
    assert_eq!(derive_dir_path(".bashrc"), ".bashrc");
}

#[test]
fn trailing_dot_leaves_the_stem() {
    assert_eq!(derive_dir_path("foo."), "foo");
}
