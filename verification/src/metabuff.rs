//! The metadata buffer that a machine keeps for its programs.
use vstd::prelude::*;

use crate::error::{buffer_too_small_text, Error, ErrorKind};
use crate::layout::{
    in_address, law_other_address_is_kept, law_stored_address_is_found,
    load_address, store_address,
};
use crate::outside::write_u64;

verus! {

/// A metadata buffer with two offset indications. It is used in one kind of machine to
/// simulate the use of a metadata buffer each time the program is executed, without the user
/// having to actually handle it. The offsets tell the machine where in the buffer the
/// pointers to packet data start and end should be stored each time the program is run on a
/// new packet.
pub struct MetaBuff {
    /// Where the address of the start of the packet data is stored.
    pub data_offset: usize,
    /// Where the address of the end of the packet data is stored.
    pub data_end_offset: usize,
    /// What the program gets to see.
    pub buffer: Vec<u8>,
}

/// The larger of two offsets.
pub open spec fn max_offset(x: usize, y: usize) -> usize {
    if x >= y {
        x
    } else {
        y
    }
}

/// A buffer that has room for an address at each of the two offsets can be allocated: no
/// vector is longer than `isize::MAX` bytes.
pub open spec fn offsets_fit(x: usize, y: usize) -> bool {
    max_offset(x, y) + 8 <= isize::MAX
}

/// The length of a buffer that has room for an address at each of the two offsets.
fn get_buff_len(x: usize, y: usize) -> (len: usize)
    requires
        offsets_fit(x, y),
    ensures
        len == max_offset(x, y) + 8,
{
    if x >= y {
        x + 8
    } else {
        y + 8
    }
}

impl MetaBuff {
    /// The buffer has just been made for the two offsets: nothing but zeros, as many as it
    /// takes to hold the two addresses.
    pub open spec fn is_fresh(self, data_offset: usize, data_end_offset: usize) -> bool {
        &&& self.data_offset == data_offset
        &&& self.data_end_offset == data_end_offset
        &&& self.buffer@ == Seq::new(
            (max_offset(data_offset, data_end_offset) + 8) as nat,
            |i: int| 0u8,
        )
    }

    /// There is room for both addresses.
    pub open spec fn has_room(self) -> bool {
        &&& self.data_offset + 8 <= self.buffer@.len()
        &&& self.data_end_offset + 8 <= self.buffer@.len()
    }

    /// The buffer is exactly as long as the two addresses need, and holds nothing but zeros
    /// next to them.
    pub open spec fn wf(self) -> bool {
        &&& self.buffer@.len() == max_offset(self.data_offset, self.data_end_offset) + 8
        &&& forall|i: int|
            0 <= i < self.buffer@.len() && !in_address(self.data_offset as int, i) && !in_address(
                self.data_end_offset as int,
                i,
            ) ==> #[trigger] self.buffer@[i] == 0
    }

    /// The contents of the buffer once `start` and then `end` have been stored.
    pub open spec fn with_addresses(self, start: u64, end: u64) -> Seq<u8> {
        store_address(
            store_address(self.buffer@, self.data_offset as int, start),
            self.data_end_offset as int,
            end,
        )
    }

    /// `self` once `start` and then `end` have been stored is `post`.
    pub open spec fn stores(self, start: u64, end: u64, post: MetaBuff) -> bool {
        &&& post.data_offset == self.data_offset
        &&& post.data_end_offset == self.data_end_offset
        &&& post.buffer@ == self.with_addresses(start, end)
    }

    /// A buffer of zeros for the two offsets.
    pub fn new(data_offset: usize, data_end_offset: usize) -> (mbuff: MetaBuff)
        requires
            offsets_fit(data_offset, data_end_offset),
        ensures
            mbuff.wf(),
            mbuff.is_fresh(data_offset, data_end_offset),
    {
        let buffer = vec![0u8; get_buff_len(data_offset, data_end_offset)];
        let mbuff = MetaBuff { data_offset, data_end_offset, buffer };
        assert(mbuff.buffer@ =~= Seq::new(
            (max_offset(data_offset, data_end_offset) + 8) as nat,
            |i: int| 0u8,
        ));
        mbuff
    }

    /// Store the addresses of the start and of the end of the packet data, in this order.
    /// Fails, and changes nothing, if there is no room for one of them.
    pub fn store_addresses(&mut self, start: u64, end: u64) -> (result: Result<(), Error>)
        ensures
            match result {
                Ok(_) => {
                    &&& old(self).has_room()
                    &&& old(self).stores(start, end, *final(self))
                },
                Err(e) => {
                    &&& !old(self).has_room()
                    &&& *final(self) == *old(self)
                    &&& e.spec_kind() == ErrorKind::Other
                    &&& e.spec_message() == buffer_too_small_text(
                        old(self).buffer@.len(),
                        old(self).data_offset as nat,
                        old(self).data_end_offset as nat,
                    )
                },
            },
            old(self).wf() ==> result is Ok && final(self).wf(),
    {
        let l: usize = self.buffer.len();
        if l < 8 || self.data_offset > l - 8 || self.data_end_offset > l - 8 {
            return Err(Error::buffer_too_small(l, self.data_offset, self.data_end_offset));
        }
        write_u64(&mut self.buffer, self.data_offset, start);
        write_u64(&mut self.buffer, self.data_end_offset, end);
        Ok(())
    }
}

/// The address of the end is found where it was stored.
pub proof fn law_end_address_is_found(mbuff: MetaBuff, start: u64, end: u64)
    requires
        mbuff.has_room(),
    ensures
        load_address(mbuff.with_addresses(start, end), mbuff.data_end_offset as int) == end,
{
    law_stored_address_is_found(
        store_address(mbuff.buffer@, mbuff.data_offset as int, start),
        mbuff.data_end_offset as int,
        end,
    );
}

/// The address of the start is found where it was stored, unless the two addresses overlap in
/// the buffer.
pub proof fn law_start_address_is_found(mbuff: MetaBuff, start: u64, end: u64)
    requires
        mbuff.has_room(),
        mbuff.data_offset + 8 <= mbuff.data_end_offset || mbuff.data_end_offset + 8
            <= mbuff.data_offset,
    ensures
        load_address(mbuff.with_addresses(start, end), mbuff.data_offset as int) == start,
{
    law_stored_address_is_found(mbuff.buffer@, mbuff.data_offset as int, start);
    law_other_address_is_kept(
        store_address(mbuff.buffer@, mbuff.data_offset as int, start),
        mbuff.data_end_offset as int,
        end,
        mbuff.data_offset as int,
    );
}

/// Storing the addresses leaves the length of the buffer and all bytes next to them as they
/// were.
pub proof fn law_rest_of_buffer_is_kept(mbuff: MetaBuff, start: u64, end: u64, i: int)
    requires
        0 <= i < mbuff.buffer@.len(),
        !in_address(mbuff.data_offset as int, i),
        !in_address(mbuff.data_end_offset as int, i),
    ensures
        mbuff.with_addresses(start, end).len() == mbuff.buffer@.len(),
        mbuff.with_addresses(start, end)[i] == mbuff.buffer@[i],
{
}

/// Storing the addresses of a new packet leaves no trace of those of the packet before.
pub proof fn law_last_packet_stays(
    pre: MetaBuff,
    start1: u64,
    end1: u64,
    mid: MetaBuff,
    start2: u64,
    end2: u64,
    post: MetaBuff,
)
    requires
        pre.stores(start1, end1, mid),
        mid.stores(start2, end2, post),
    ensures
        pre.stores(start2, end2, post),
{
    assert(post.buffer@ =~= pre.with_addresses(start2, end2));
}

/// What stands in the buffer once the addresses have been stored depends on the offsets and
/// the addresses only: it is what a fresh buffer would hold.
pub proof fn law_buffer_depends_on_packet_only(
    mbuff: MetaBuff,
    fresh: MetaBuff,
    start: u64,
    end: u64,
)
    requires
        mbuff.wf(),
        fresh.is_fresh(mbuff.data_offset, mbuff.data_end_offset),
    ensures
        mbuff.with_addresses(start, end) == fresh.with_addresses(start, end),
{
    assert(mbuff.with_addresses(start, end) =~= fresh.with_addresses(start, end));
}

} // verus!
