//! The shared failure convention of returned words.

use vstd::prelude::*;

verus! {

/// The returned word that denotes failure: all bits set, `-1` as a signed word.
pub const FAILURE: usize = usize::MAX;

/// What the failure convention makes of a returned word: a failure for the
/// sentinel, the word itself otherwise.
pub open spec fn checked(ret: usize) -> Result<usize, ()> {
    if ret == FAILURE {
        Err(())
    } else {
        Ok(ret)
    }
}

/// Checks a returned word against the failure sentinel.
///
/// The sentinel gives `Err(())`; any other word, `0` included, is handed back
/// unchanged as `Ok`. The host's `errno` tells more about a failure.
pub fn check(ret: usize) -> (r: Result<usize, ()>)
    ensures
        r == checked(ret),
{
    if ret != FAILURE {
        Ok(ret)
    } else {
        Err(())
    }
}

/// The sentinel, and only the sentinel, is a failure; every other word
/// passes through unchanged.
pub proof fn failure_convention(ret: usize)
    ensures
        checked(ret) is Err <==> ret == FAILURE,
        ret != FAILURE ==> checked(ret) == Ok::<usize, ()>(ret),
        checked(ret) matches Ok(v) ==> v == ret,
{
}

} // verus!
