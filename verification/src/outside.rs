//! The two functions that are called and not proved.
use byteorder::{ByteOrder, LittleEndian};
use vstd::prelude::*;

use crate::layout::store_address;

verus! {

/// Calls `byteorder::LittleEndian::write_u64` on what stands in `buffer` from `offset` on.
///
/// What is claimed of it: it writes the eight bytes of `n`, the lowest first, to the
/// beginning of the slice that it is given, and leaves the rest of the slice alone. It
/// panics on a slice of less than eight bytes, so such calls are ruled out.
#[verifier::external_body]
pub(crate) fn write_u64(buffer: &mut Vec<u8>, offset: usize, n: u64)
    requires
        offset + 8 <= old(buffer)@.len(),
    ensures
        final(buffer)@ == store_address(old(buffer)@, offset as int, n),
{
    LittleEndian::write_u64(&mut buffer[offset..], n);
}

/// Calls `as_ptr` of the slice that `mem` refers to, and gives the address as a number. The
/// reference itself is taken, not a copy of it, so that the address is tied to this reference
/// and to no other that refers to the same contents.
///
/// What is claimed of it: no allocation reaches beyond the end of the address space, so
/// the address of the end of the slice is a number too. Where the slice lies is up to the
/// machine: of two calls nothing says that they return the same address.
#[verifier::external_body]
pub(crate) fn address_of(mem: &&mut [u8]) -> (start: u64)
    ensures
        start + old(*mem)@.len() <= u64::MAX,
{
    mem.as_ptr() as u64
}

} // verus!
