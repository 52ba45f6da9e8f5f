//! Recursive Container Handler: a container format wraps an inner main
//! archive plus auxiliary metadata files. After the container is extracted
//! with its fixed dedicated tool, each member of the target directory is
//! either a known non-archive metadata file, to be discarded without further
//! processing, or an inner archive, to be run through the whole pipeline and
//! then deleted.
use crate::text::str_eq;
use vstd::prelude::*;

verus! {

/// What to do with one member of an extracted container.
#[derive(Clone, Copy, Debug, PartialEq, Eq, Structural)]
pub enum MemberAction {
    /// A known metadata file: delete it without further processing.
    Discard,
    /// An inner archive: run it through the whole pipeline, then delete it.
    ExtractThenDelete,
}

/// The fixed denylist of known non-archive metadata member names.
pub open spec fn spec_is_metadata_member(name: Seq<char>) -> bool {
    name == "debian-binary"@ || name == "_gpgorigin"@
}

/// Whether a container member is a known metadata file.
pub fn is_metadata_member(name: &str) -> (r: bool)
    ensures
        r == spec_is_metadata_member(name@),
{
    str_eq(name, "debian-binary") || str_eq(name, "_gpgorigin")
}

/// The action owed for one member of an extracted container.
pub fn member_action(name: &str) -> (r: MemberAction)
    ensures
        r == (if spec_is_metadata_member(name@) {
            MemberAction::Discard
        } else {
            MemberAction::ExtractThenDelete
        }),
{
    if is_metadata_member(name) {
        MemberAction::Discard
    } else {
        MemberAction::ExtractThenDelete
    }
}

} // verus!
