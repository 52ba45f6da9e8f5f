use unarch::container::is_metadata_member;
use unarch::container::member_action;
use unarch::container::MemberAction;
use unarch::format::resolve_name;
use unarch::format::Resolution;
use unarch::format::Tool;
use unarch::target::derive_dir_path;

#[test]
fn metadata_members_are_discarded() {
    assert_eq!(member_action("debian-binary"), MemberAction::Discard);
    assert_eq!(member_action("_gpgorigin"), MemberAction::Discard);
}

#[test]
fn other_members_are_extracted_then_deleted() {
    assert_eq!(member_action("data.tar.xz"), MemberAction::ExtractThenDelete);
    assert_eq!(member_action("control.tar.gz"), MemberAction::ExtractThenDelete);
}

#[test]
fn denylist_matching_is_exact() {
    assert!(is_metadata_member("debian-binary"));
    assert!(is_metadata_member("_gpgorigin"));
    assert!(!is_metadata_member("debian-binary2"));
    assert!(!is_metadata_member("gpgorigin"));
    assert!(!is_metadata_member(""));
}

#[test]
fn container_members_run_through_the_whole_pipeline() {
    let members = ["debian-binary", "_gpgorigin", "data.tar.xz"];
    let mut extracted = Vec::new();
    for m in members {
        if member_action(m) == MemberAction::ExtractThenDelete {
            extracted.push(m);
        }
    }
    assert_eq!(extracted, ["data.tar.xz"]);
    assert_eq!(resolve_name("data.tar.xz"), Resolution::Recognized(Tool::Tar));
    assert_eq!(derive_dir_path("data.tar.xz"), "data");
}
