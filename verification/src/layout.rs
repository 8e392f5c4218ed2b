//! Numbers as little endian bytes, and where they stand in a buffer.
use vstd::arithmetic::div_mod::lemma_div_denominator;
use vstd::arithmetic::power::{lemma_pow0, lemma_pow_positive, pow};
use vstd::prelude::*;

verus! {

/// The `width` lowest base 256 digits of `n`, the lowest first.
pub open spec fn le_bytes(n: nat, width: nat) -> Seq<u8>
    decreases width,
{
    if width == 0 {
        Seq::empty()
    } else {
        seq![(n % 256) as u8] + le_bytes(n / 256, (width - 1) as nat)
    }
}

/// The number whose base 256 digits are `bytes`, the lowest first.
pub open spec fn le_value(bytes: Seq<u8>) -> nat
    decreases bytes.len(),
{
    if bytes.len() == 0 {
        0
    } else {
        bytes[0] as nat + 256 * le_value(bytes.drop_first())
    }
}

/// Position `i` is one of those that hold the address stored at `offset`.
pub open spec fn in_address(offset: int, i: int) -> bool {
    offset <= i < offset + 8
}

/// `buffer` once the address `addr` has been stored at `offset`.
pub open spec fn store_address(buffer: Seq<u8>, offset: int, addr: u64) -> Seq<u8> {
    Seq::new(
        buffer.len(),
        |i: int|
            if in_address(offset, i) {
                le_bytes(addr as nat, 8)[i - offset]
            } else {
                buffer[i]
            },
    )
}

/// The address that stands in `buffer` at `offset`.
pub open spec fn load_address(buffer: Seq<u8>, offset: int) -> nat {
    le_value(buffer.subrange(offset, offset + 8))
}

pub proof fn lemma_le_bytes_len(n: nat, width: nat)
    ensures
        le_bytes(n, width).len() == width,
    decreases width,
{
    if width > 0 {
        lemma_le_bytes_len(n / 256, (width - 1) as nat);
    }
}

/// The byte at position `i` is the base 256 digit of that weight.
pub proof fn law_le_byte_is_digit(n: nat, width: nat, i: int)
    requires
        0 <= i < width,
    ensures
        le_bytes(n, width)[i] == ((n as int / pow(256, i as nat)) % 256) as u8,
    decreases width,
{
    lemma_le_bytes_len(n / 256, (width - 1) as nat);
    if i == 0 {
        lemma_pow0(256);
    } else {
        let rest = (i - 1) as nat;
        law_le_byte_is_digit(n / 256, (width - 1) as nat, i - 1);
        lemma_pow_positive(256, rest);
        assert(pow(256, i as nat) == 256 * pow(256, rest)) by {
            reveal(pow);
        }
        lemma_div_denominator(n as int, 256, pow(256, rest));
    }
}

/// Reading back the bytes of a number that fits gives the number.
pub proof fn law_le_bytes_round_trip(n: nat, width: nat)
    requires
        n < pow(256, width),
    ensures
        le_value(le_bytes(n, width)) == n,
    decreases width,
{
    if width == 0 {
        lemma_pow0(256);
    } else {
        let rest = (width - 1) as nat;
        assert(pow(256, width) == 256 * pow(256, rest)) by {
            reveal(pow);
        }
        assert(n / 256 < pow(256, rest)) by (nonlinear_arith)
            requires
                n < 256 * pow(256, rest),
        ;
        law_le_bytes_round_trip(n / 256, rest);
        lemma_le_bytes_len(n / 256, rest);
        assert(le_bytes(n, width).drop_first() =~= le_bytes(n / 256, rest));
    }
}

/// An address that has been stored at an offset is what is found there.
pub proof fn law_stored_address_is_found(buffer: Seq<u8>, offset: int, addr: u64)
    requires
        0 <= offset,
        offset + 8 <= buffer.len(),
    ensures
        load_address(store_address(buffer, offset, addr), offset) == addr,
{
    let stored = store_address(buffer, offset, addr);
    lemma_le_bytes_len(addr as nat, 8);
    assert(stored.subrange(offset, offset + 8) =~= le_bytes(addr as nat, 8));
    assert(pow(256, 8) == 0x1_0000_0000_0000_0000) by {
        reveal_with_fuel(pow, 9);
    }
    law_le_bytes_round_trip(addr as nat, 8);
}

/// Storing an address leaves an address that stands clear of it as it was.
pub proof fn law_other_address_is_kept(buffer: Seq<u8>, offset: int, addr: u64, other: int)
    requires
        0 <= offset,
        offset + 8 <= buffer.len(),
        0 <= other,
        other + 8 <= buffer.len(),
        other + 8 <= offset || offset + 8 <= other,
    ensures
        load_address(store_address(buffer, offset, addr), other) == load_address(buffer, other),
{
    assert(store_address(buffer, offset, addr).subrange(other, other + 8) =~= buffer.subrange(
        other,
        other + 8,
    ));
}

} // verus!
