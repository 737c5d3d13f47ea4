//! The termination protocol of the architectural test suite: the guest
//! posts a packed status word whose low bit says a test finished and
//! whose upper bits carry the failing test's number, zero on success.

use vstd::prelude::*;

verus! {

/// The guest physical address the test-status word is posted at.
pub const TEST_STATUS_ADDRESS: u64 = 0x80001000;

/// Classify one reading of the test-status word: `None` while the low
/// bit is clear (still running), `Some(Ok(()))` when it is set with a
/// zero test number (the suite passed), and `Some(Err(n))` when it is
/// set with the nonzero failing test number `n`.
pub fn test_status(value: u32) -> (r: Option<Result<(), u32>>)
    ensures
        value & 0x1 != 1 ==> r is None,
        value & 0x1 == 1 && value >> 1 == 0 ==> r == Some(Ok::<(), u32>(())),
        value & 0x1 == 1 && value >> 1 != 0 ==> r == Some(Err::<(), u32>(value >> 1)),
{
    let success = (value & 0x1) == 1;
    let testnum = value >> 1;
    if success {
        if testnum == 0 {
            Some(Ok(()))
        } else {
            Some(Err(testnum))
        }
    } else {
        None
    }
}

} // verus!
