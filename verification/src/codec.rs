//! The byte encoding of the values that are hashed: little-endian integers of a
//! fixed width, and sequences behind their length in compact form.

use vstd::prelude::*;

verus! {

/// The `width` low bytes of `value`, least significant first.
pub open spec fn le_bytes(value: nat, width: nat) -> Seq<u8>
    decreases width,
{
    if width == 0 {
        Seq::empty()
    } else {
        seq![(value % 0x100) as u8] + le_bytes(value / 0x100, (width - 1) as nat)
    }
}

/// The number that `bytes` stand for, least significant byte first.
pub open spec fn le_value(bytes: Seq<u8>) -> nat
    decreases bytes.len(),
{
    if bytes.len() == 0 {
        0
    } else {
        (bytes[0] as nat) + 0x100 * le_value(bytes.drop_first())
    }
}

/// A little-endian encoding has as many bytes as its width.
pub proof fn lemma_le_bytes_len(value: nat, width: nat)
    ensures
        le_bytes(value, width).len() == width,
    decreases width,
{
    if width > 0 {
        lemma_le_bytes_len(value / 0x100, (width - 1) as nat);
    }
}

/// Reading back a little-endian encoding gives the value, cut to the width.
pub proof fn lemma_le_round_trip(value: nat, width: nat)
    ensures
        le_value(le_bytes(value, width)) == value % vstd::arithmetic::power::pow(
            0x100,
            width,
        ) as nat,
    decreases width,
{
    reveal(vstd::arithmetic::power::pow);
    if width == 0 {
        assert(vstd::arithmetic::power::pow(0x100, 0) == 1);
    } else {
        let rest: nat = value / 0x100;
        let tail_width: nat = (width - 1) as nat;
        lemma_le_round_trip(rest, tail_width);
        let bytes = le_bytes(value, width);
        assert(bytes.drop_first() =~= le_bytes(rest, tail_width));
        let p: int = vstd::arithmetic::power::pow(0x100, tail_width);
        vstd::arithmetic::power::lemma_pow_positive(0x100, tail_width);
        assert(vstd::arithmetic::power::pow(0x100, width) == 0x100 * p);
        assert(value % (0x100 * p) as nat == (value % 0x100) + 0x100 * (rest % p as nat)) by {
            vstd::arithmetic::div_mod::lemma_breakdown(value as int, 0x100, p);
            assert(0x100 * p == p * 0x100) by (nonlinear_arith);
            assert(value as int / 0x100 == rest);
        }
    }
}

/// The compact form of the length `n`.
pub open spec fn compact_len(n: nat) -> Seq<u8> {
    if n < 0x40 {
        le_bytes(4 * n, 1)
    } else if n < 0x4000 {
        le_bytes(4 * n + 1, 2)
    } else if n < 0x4000_0000 {
        le_bytes(4 * n + 2, 4)
    } else {
        seq![3u8] + le_bytes(n, 4)
    }
}

/// The bytes of each item of `items`, one after the other.
pub open spec fn concat(items: Seq<Seq<u8>>) -> Seq<u8>
    decreases items.len(),
{
    if items.len() == 0 {
        Seq::empty()
    } else {
        concat(items.drop_last()) + items.last()
    }
}

/// A sequence of byte strings: their number in compact form, then each behind its
/// own length in compact form.
pub open spec fn byte_strings(items: Seq<Seq<u8>>) -> Seq<u8> {
    compact_len(items.len()) + concat(items.map_values(|item: Seq<u8>| byte_string(item)))
}

/// A byte string behind its length in compact form.
pub open spec fn byte_string(bytes: Seq<u8>) -> Seq<u8> {
    compact_len(bytes.len()) + bytes
}

/// Appends the `width` low bytes of `value`, least significant first.
pub fn put_le(out: &mut Vec<u8>, value: u128, width: usize)
    ensures
        final(out)@ == old(out)@ + le_bytes(value as nat, width as nat),
{
    let mut rest: u128 = value;
    let mut i: usize = 0;
    while i < width
        invariant
            i <= width,
            old(out)@ + le_bytes(value as nat, width as nat) == out@ + le_bytes(
                rest as nat,
                (width - i) as nat,
            ),
        decreases width - i,
    {
        let byte: u8 = (rest % 0x100) as u8;
        out.push(byte);
        rest = rest / 0x100;
        i = i + 1;
    }
}

/// Appends the compact form of the length `n`.
pub fn put_compact_len(out: &mut Vec<u8>, n: u32)
    ensures
        final(out)@ == old(out)@ + compact_len(n as nat),
{
    if n < 0x40 {
        put_le(out, 4 * (n as u128), 1);
    } else if n < 0x4000 {
        put_le(out, 4 * (n as u128) + 1, 2);
    } else if n < 0x4000_0000 {
        put_le(out, 4 * (n as u128) + 2, 4);
    } else {
        out.push(3u8);
        put_le(out, n as u128, 4);
    }
}

/// Appends `bytes` as they are.
pub fn put_bytes(out: &mut Vec<u8>, bytes: &Vec<u8>)
    ensures
        final(out)@ == old(out)@ + bytes@,
{
    let mut i: usize = 0;
    while i < bytes.len()
        invariant
            i <= bytes@.len(),
            out@ == old(out)@ + bytes@.take(i as int),
        decreases bytes@.len() - i,
    {
        out.push(bytes[i]);
        assert(bytes@.take(i + 1) =~= bytes@.take(i as int).push(bytes@[i as int]));
        i = i + 1;
    }
    assert(bytes@.take(bytes@.len() as int) =~= bytes@);
}

/// Appends a byte string behind its length in compact form.
pub fn put_byte_string(out: &mut Vec<u8>, bytes: &Vec<u8>)
    requires
        bytes@.len() <= u32::MAX,
    ensures
        final(out)@ == old(out)@ + byte_string(bytes@),
{
    put_compact_len(out, bytes.len() as u32);
    put_bytes(out, bytes);
}

} // verus!
