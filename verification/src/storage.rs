//! Obtaining the storage of one array.

use crate::error::BufferError;
use crate::view::zeros;
use std::collections::TryReserveError;
use vstd::prelude::*;

verus! {

/// The largest number of 32-bit entries that one array can have on this
/// machine: an allocation is limited to `isize::MAX` bytes.
pub open spec fn spec_max_entries() -> usize {
    (isize::MAX / 4) as usize
}

/// The largest number of 32-bit entries that one array can have on this
/// machine.
#[verifier::when_used_as_spec(spec_max_entries)]
pub fn max_entries() -> (limit: usize)
    ensures
        limit == spec_max_entries(),
        limit * 4 <= isize::MAX,
{
    isize::MAX as usize / 4
}

/// An array of `len` zeros. Stops the process if the allocator runs out of
/// memory.
pub(crate) fn zeroed(len: usize) -> (array: Vec<u32>)
    requires
        len <= max_entries(),
    ensures
        array@ == zeros(len as nat),
{
    let array = vec![0u32; len];
    assert(array@ =~= zeros(len as nat));
    array
}

/// What the outcome of reserving storage for `len` entries makes of the
/// empty `array`: `len` zeros where the storage was granted, a failure where
/// it was not.
pub(crate) fn fill_reserved(
    array: Vec<u32>,
    reserved: Result<(), TryReserveError>,
    len: usize,
) -> (filled: Result<Vec<u32>, BufferError>)
    requires
        array@.len() == 0,
    ensures
        reserved is Ok ==> filled is Ok && filled->Ok_0@ == zeros(len as nat),
        reserved is Err ==> filled == Err::<Vec<u32>, BufferError>(BufferError::AllocationFailure),
{
    let mut array = array;
    match reserved {
        Ok(_) => {
            array.resize(len, 0u32);
            assert(array@ =~= zeros(len as nat));
            Ok(array)
        },
        Err(_) => Err(BufferError::AllocationFailure),
    }
}

/// An array of `len` zeros, or `AllocationFailure` if the allocator does not
/// grant the storage. An empty array needs none and is always granted.
pub(crate) fn try_zeroed(len: usize) -> (array: Result<Vec<u32>, BufferError>)
    ensures
        len == 0 ==> array is Ok,
        array matches Ok(a) ==> a@ == zeros(len as nat),
        array matches Err(e) ==> e == BufferError::AllocationFailure,
{
    let mut array: Vec<u32> = Vec::new();
    if len == 0 {
        assert(array@ =~= zeros(0));
        return Ok(array);
    }
    let reserved = array.try_reserve(len);
    fill_reserved(array, reserved, len)
}

} // verus!
