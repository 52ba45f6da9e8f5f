//! Target Path Deriver: computes the canonical output directory name from an
//! archive's file name. The final suffix component is stripped; if the
//! remaining stem still ends in the tar-family marker `.tar` that is stripped
//! too, and if what remains then ends in the packaging marker `.pkg` that is
//! stripped as well.
use crate::text::ends_with_str;
use crate::text::is_suffix_of;
use vstd::prelude::*;
use vstd::string::StrSliceExecFns;

verus! {

/// The index of the last `'.'` in `name`, or `-1` when it has none.
pub open spec fn spec_last_dot(name: Seq<char>) -> int
    decreases name.len(),
{
    if name.len() == 0 {
        -1
    } else if name[name.len() - 1] == '.' {
        name.len() - 1
    } else {
        spec_last_dot(name.drop_last())
    }
}

/// `spec_last_dot` names the last dot: a dot stands there and none after it;
/// `-1` means no dot at all.
pub proof fn lemma_last_dot(name: Seq<char>)
    ensures
        -1 <= spec_last_dot(name) < name.len(),
        spec_last_dot(name) == -1 ==> forall|j: int| 0 <= j < name.len() ==> name[j] != '.',
        spec_last_dot(name) >= 0 ==> 0 <= spec_last_dot(name) < name.len() && name[spec_last_dot(
            name,
        )] == '.' && forall|j: int| spec_last_dot(name) < j < name.len() ==> name[j] != '.',
    decreases name.len(),
{
    if name.len() > 0 && name[name.len() - 1] != '.' {
        lemma_last_dot(name.drop_last());
        assert forall|j: int| 0 <= j < name.len() - 1 implies name.drop_last()[j] == name[j] by {}
    }
}

/// The file name without its final extension component: the part before the
/// last dot, unless the only dot is the leading character or there is none,
/// in which case the whole name is the stem.
pub open spec fn spec_stem(name: Seq<char>) -> Seq<char> {
    let ld = spec_last_dot(name);
    if ld > 0 {
        name.take(ld)
    } else {
        name
    }
}

/// Strips a trailing tar-family marker from the stem, and a packaging marker
/// stacked under it.
pub open spec fn spec_strip_markers(stem: Seq<char>) -> Seq<char> {
    if is_suffix_of(".tar"@, stem) {
        let s = stem.take(stem.len() - 4);
        if is_suffix_of(".pkg"@, s) {
            s.take(s.len() - 4)
        } else {
            s
        }
    } else {
        stem
    }
}

/// The canonical target directory name for an archive's file name.
pub open spec fn spec_target_name(name: Seq<char>) -> Seq<char> {
    spec_strip_markers(spec_stem(name))
}

/// Derives the canonical target directory name from a file name. The caller
/// hands in a plain file name, not a path with directory components.
pub fn derive_dir_path(name: &str) -> (r: String)
    requires
        name@.len() > 0,
    ensures
        r@ == spec_target_name(name@),
{
    let n: usize = name.unicode_len();
    let mut i: usize = n;
    while i > 0
        invariant
            0 <= i <= n,
            n == name@.len(),
            forall|j: int| i <= j < n ==> name@[j] != '.',
        ensures
            0 <= i <= n,
            n == name@.len(),
            forall|j: int| i <= j < n ==> name@[j] != '.',
            i > 0 ==> name@[i - 1] == '.',
        decreases i,
    {
        if name.get_char(i - 1) == '.' {
            break ;
        }
        i = i - 1;
    }
    let mut stem_end: usize = n;
    if i > 1 {
        stem_end = i - 1;
    }
    proof {
        lemma_last_dot(name@);
        let ld = spec_last_dot(name@);
        if i == 0 {
            assert(ld == -1) by {
                if ld >= 0 {
                    assert(name@[ld] != '.');
                }
            }
        } else {
            assert(ld >= 0) by {
                if ld == -1 {
                    assert(name@[i - 1] != '.');
                }
            }
            assert(ld == i - 1) by {
                if ld < i - 1 {
                    assert(name@[i - 1] != '.');
                }
                if ld > i - 1 {
                    assert(name@[ld] != '.');
                }
            }
        }
        assert(name@.subrange(0, stem_end as int) =~= spec_stem(name@));
        reveal_strlit(".tar");
        reveal_strlit(".pkg");
    }
    let stem: &str = name.substring_char(0, stem_end);
    if ends_with_str(stem, ".tar") {
        let s: &str = name.substring_char(0, stem_end - 4);
        proof {
            assert(s@ =~= spec_stem(name@).take(spec_stem(name@).len() - 4));
        }
        if ends_with_str(s, ".pkg") {
            let t: &str = name.substring_char(0, stem_end - 8);
            proof {
                assert(t@ =~= s@.take(s@.len() - 4));
            }
            t.to_owned()
        } else {
            s.to_owned()
        }
    } else {
        stem.to_owned()
    }
}

} // verus!
