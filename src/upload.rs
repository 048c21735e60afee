use vstd::prelude::*;

use crate::config::BackendKind;
use crate::errors::{bad_path_text, error_text};
use crate::path::{object_target, split_path, ObjectPath};

verus! {

/// The targets of a batch of single-shot uploads, one per path and in the
/// same order: the object, or the malformed-path message for that item
/// alone.
pub fn plan_puts(paths: &Vec<String>) -> (r: Vec<Result<ObjectPath, String>>)
    ensures
        r@.len() == paths@.len(),
        forall|i: int|
            0 <= i < r@.len() ==> {
                &&& split_path(paths@[i]@) is None ==> (#[trigger] r@[i] matches Err(m) && m@
                    == error_text(BackendKind::S3, bad_path_text()))
                &&& split_path(paths@[i]@) matches Some(pair) ==> (r@[i] matches Ok(p)
                    && p.view_pair() == pair)
            },
{
    let mut out: Vec<Result<ObjectPath, String>> = Vec::new();
    let mut i: usize = 0;
    while i < paths.len()
        invariant
            i <= paths@.len(),
            out@.len() == i,
            forall|j: int|
                0 <= j < i ==> {
                    &&& split_path(paths@[j]@) is None ==> (#[trigger] out@[j] matches Err(m)
                        && m@ == error_text(BackendKind::S3, bad_path_text()))
                    &&& split_path(paths@[j]@) matches Some(pair) ==> (out@[j] matches Ok(p)
                        && p.view_pair() == pair)
                },
        decreases paths@.len() - i,
    {
        out.push(object_target(BackendKind::S3, paths[i].as_str()));
        i += 1;
    }
    out
}

} // verus!
