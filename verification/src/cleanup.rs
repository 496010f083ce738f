//! The cleanup handler's pure core: deciding which files a project cleanup
//! touches and which failures it reports. Removing the files themselves is
//! filesystem work left to the surrounding application.

use vstd::prelude::*;

verus! {

/// A path entry takes part in the cleanup exactly when it is non-empty.
pub open spec fn is_cleanup_target(p: String) -> bool {
    p@.len() != 0
}

/// The files a cleanup pass will try to remove: the non-empty entries of
/// `paths`, kept in their original order. Empty entries are skipped.
pub fn deletable_paths(paths: &Vec<String>) -> (r: Vec<String>)
    ensures
        r@ == paths@.filter(|p: String| is_cleanup_target(p)),
{
    let mut r: Vec<String> = Vec::new();
    let mut i: usize = 0;
    while i < paths.len()
        invariant
            i <= paths.len(),
            r@ == paths@.take(i as int).filter(|p: String| is_cleanup_target(p)),
        decreases paths.len() - i,
    {
        let ghost prefix = paths@.take(i as int);
        if !paths[i].as_str().is_empty() {
            r.push(paths[i].clone());
        }
        i = i + 1;
        proof {
            reveal(Seq::filter);
            assert(paths@.take(i as int).drop_last() =~= prefix);
            assert(paths@.take(i as int).last() == paths@[i - 1]);
        }
    }
    proof {
        assert(paths@.take(paths@.len() as int) =~= paths@);
    }
    r
}

/// A removal failure is reported unless the file was already missing: a file
/// that is gone is a normal outcome of cleanup, not an error worth noting.
pub fn failure_is_reported(file_was_missing: bool) -> (r: bool)
    ensures
        r == !file_was_missing,
{
    !file_was_missing
}

} // verus!
