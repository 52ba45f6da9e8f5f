//! Extraction Invoker: the computed parts of running an extraction tool.
//! The archive path is rewritten to stay resolvable from inside the target
//! directory, and the subprocess's termination is translated into this
//! program's own exit code: a non-zero exit code is propagated as it is, a
//! termination by signal becomes `128 + signal number`, the usual Unix
//! convention.
use vstd::prelude::*;
use vstd::string::StrSliceExecFns;
use vstd::string::StringExecFns;

verus! {

/// The archive path as the extraction tool must see it from inside the
/// target directory, one level below where the caller stood: an absolute
/// path is already resolvable, a relative one moves up one level.
pub open spec fn spec_rebased_path(path: Seq<char>) -> Seq<char> {
    if path.len() > 0 && path[0] == '/' {
        path
    } else {
        "../"@ + path
    }
}

/// Rewrites the archive path relative to the target directory the tool will
/// run in.
pub fn rebase_archive_path(path: &str) -> (r: String)
    ensures
        r@ == spec_rebased_path(path@),
{
    if path.unicode_len() > 0 && path.get_char(0) == '/' {
        path.to_owned()
    } else {
        let mut s: String = "../".to_owned();
        s.append(path);
        s
    }
}

/// The exit code owed for a failed subprocess, from its exit code and the
/// signal that killed it, one of which is present.
pub open spec fn spec_exit_code(code: Option<i32>, signal: Option<i32>) -> int {
    match code {
        Some(c) => c as int,
        None => signal->0 + 128,
    }
}

/// Translates subprocess termination: `None` when the subprocess succeeded
/// (nothing to propagate), otherwise the exit code this program must
/// terminate with.
pub fn exit_code_for(success: bool, code: Option<i32>, signal: Option<i32>) -> (r: Option<i32>)
    requires
        !success ==> code is Some || signal is Some,
        (!success && code is None) ==> signal->0 + 128 <= i32::MAX,
    ensures
        success ==> r is None,
        !success ==> r == Some((spec_exit_code(code, signal) as i32)),
{
    if success {
        None
    } else {
        match code {
            Some(c) => Some(c),
            None => {
                match signal {
                    Some(s) => Some(s + 128),
                    None => None,
                }
            },
        }
    }
}

} // verus!
