//! The bit cursor: a read-only window of bits over a byte buffer,
//! addressed most-significant-bit first.
//!
//! The window itself is a `bitvec` slice. Verus does not look inside it, so
//! this module names what the window holds ([`bit_seq`]) and states, for each
//! `bitvec` call the decoder makes, what that call does in terms of that name.
//! Those statements are trusted; everything built on them is proved.

use bitvec::field::BitField;
use bitvec::order::Msb0;
use bitvec::slice::BitSlice;
use bitvec::view::BitView;
use vstd::prelude::*;

verus! {

/// A read-only window of bits over a borrowed byte buffer.
///
/// Bit `0` of the window is the most significant bit of its first byte.
/// The view of a cursor is the sequence of its bits.
#[verifier::external_body]
pub struct BitCursor<'a> {
    bits: &'a BitSlice<u8, Msb0>,
}

/// The bits that a window holds, in the order of their indices.
pub uninterp spec fn bit_seq(cursor: BitCursor) -> Seq<bool>;

/// The number that a run of bits denotes when its first bit is the most
/// significant one.
pub open spec fn msb_value(s: Seq<bool>) -> nat
    decreases s.len(),
{
    if s.len() == 0 {
        0
    } else {
        2 * msb_value(s.drop_last()) + if s.last() {
            1nat
        } else {
            0nat
        }
    }
}

/// Bit `k` of a byte, counted from its most significant bit.
pub open spec fn bit_of_byte(b: u8, k: int) -> bool {
    b & (0x80u8 >> (k as u8)) != 0
}

/// The bits of a byte buffer, each byte most significant bit first.
pub open spec fn bits_of_bytes(bytes: Seq<u8>) -> Seq<bool> {
    Seq::new(8 * bytes.len(), |i: int| bit_of_byte(bytes[i / 8], i % 8))
}

/// The unsigned number held in `width` bits of `s` from bit `start` on.
pub open spec fn field_value(s: Seq<bool>, start: int, width: int) -> nat {
    msb_value(s.subrange(start, start + width))
}

/// The largest byte buffer that a cursor can be laid over.
pub open spec fn max_cursor_bytes() -> int {
    usize::MAX as int / 64
}

/// `BitView::view_bits::<Msb0>` on a byte slice: the window over all of the
/// buffer. Bit `i` of the window is bit `i % 8`, counted from the most
/// significant end, of byte `i / 8`. The call panics on a buffer of more
/// bits than the crate can address, which the precondition leaves out.
#[verifier::external_body]
fn view_bytes<'a>(bytes: &'a [u8]) -> (cursor: BitCursor<'a>)
    requires
        bytes@.len() <= max_cursor_bytes(),
    ensures
        bit_seq(cursor) == bits_of_bytes(bytes@),
{
    BitCursor { bits: bytes.view_bits::<Msb0>() }
}

/// `BitSlice::len`: the number of bits in the window.
#[verifier::external_body]
fn raw_len(cursor: &BitCursor) -> (n: usize)
    ensures
        n == bit_seq(*cursor).len(),
{
    cursor.bits.len()
}

/// `BitSlice`'s `Index<usize>`: the bit at index `i`. The call panics on an
/// index past the end, which the precondition leaves out.
#[verifier::external_body]
fn raw_bit(cursor: &BitCursor, i: usize) -> (b: bool)
    requires
        i < bit_seq(*cursor).len(),
    ensures
        b == bit_seq(*cursor)[i as int],
{
    cursor.bits[i]
}

/// `BitSlice`'s `Index<Range<usize>>`: the window of the bits from `start`
/// up to, not including, `end`. The call panics on a range that is reversed
/// or runs past the end, which the precondition leaves out.
#[verifier::external_body]
fn raw_range<'a>(cursor: &BitCursor<'a>, start: usize, end: usize) -> (window: BitCursor<'a>)
    requires
        start <= end <= bit_seq(*cursor).len(),
    ensures
        bit_seq(window) == bit_seq(*cursor).subrange(start as int, end as int),
{
    BitCursor { bits: &cursor.bits[start..end] }
}

/// `BitField::load_be::<u16>` on a `BitSlice<u8, Msb0>`: the bits of the
/// window read as one unsigned number, the first bit being the most
/// significant. With this bit order and big-endian element order that holds
/// wherever in its bytes the window starts. The call panics on an empty
/// window and on one of more than 16 bits, which the precondition leaves out.
#[verifier::external_body]
fn raw_load(cursor: &BitCursor) -> (value: u16)
    requires
        1 <= bit_seq(*cursor).len() <= 16,
    ensures
        value == msb_value(bit_seq(*cursor)),
{
    cursor.bits.load_be::<u16>()
}

impl<'a> View for BitCursor<'a> {
    type V = Seq<bool>;

    open spec fn view(&self) -> Seq<bool> {
        bit_seq(*self)
    }
}

impl<'a> BitCursor<'a> {
    /// Lays a cursor over all of `bytes`, or returns `None` for a buffer
    /// too large to be addressed bit by bit.
    pub fn new(bytes: &'a [u8]) -> (cursor: Option<BitCursor<'a>>)
        ensures
            cursor is Some <==> bytes@.len() <= max_cursor_bytes(),
            cursor matches Some(c) ==> c@ == bits_of_bytes(bytes@),
    {
        if bytes.len() <= usize::MAX / 64 {
            Some(view_bytes(bytes))
        } else {
            None
        }
    }

    /// The number of bits in the window.
    pub fn len(&self) -> (n: usize)
        ensures
            n == self@.len(),
    {
        raw_len(self)
    }

    /// The single-bit flag at index `i`.
    pub fn flag(&self, i: usize) -> (b: bool)
        requires
            i < self@.len(),
        ensures
            b == self@[i as int],
    {
        raw_bit(self, i)
    }

    /// The window of the bits from `start` up to, not including, `end`.
    pub fn window(&self, start: usize, end: usize) -> (w: BitCursor<'a>)
        requires
            start <= end <= self@.len(),
        ensures
            w@ == self@.subrange(start as int, end as int),
    {
        raw_range(self, start, end)
    }

    /// The unsigned number held in the `width` bits from bit `start` on.
    pub fn field(&self, start: usize, width: usize) -> (value: u16)
        requires
            1 <= width <= 16,
            start + width <= self@.len(),
        ensures
            value == field_value(self@, start as int, width as int),
    {
        let total: usize = raw_len(self);
        assert(start + width <= total);
        let w = raw_range(self, start, start + width);
        raw_load(&w)
    }

    /// The byte that starts at bit `start`.
    pub fn byte(&self, start: usize) -> (value: u8)
        requires
            start + 8 <= self@.len(),
        ensures
            value == field_value(self@, start as int, 8),
    {
        let v: u16 = self.field(start, 8);
        proof {
            lemma_msb_value_bound(self@.subrange(start as int, start + 8));
        }
        v as u8
    }
}

/// The largest number that `n` bits can hold, plus one.
pub open spec fn pow2_bits(n: nat) -> nat
    decreases n,
{
    if n == 0 {
        1
    } else {
        2 * pow2_bits((n - 1) as nat)
    }
}

/// A run of `n` bits denotes a number below `2^n`.
pub proof fn lemma_msb_value_bound(s: Seq<bool>)
    ensures
        msb_value(s) < pow2_bits(s.len()),
        s.len() == 8 ==> msb_value(s) < 256,
        s.len() == 16 ==> msb_value(s) < 65536,
    decreases s.len(),
{
    if s.len() > 0 {
        lemma_msb_value_bound(s.drop_last());
    }
    reveal_with_fuel(pow2_bits, 17);
}

/// The number that eight bits denote, written out.
pub proof fn lemma_msb_value_of_eight(t: Seq<bool>)
    requires
        t.len() == 8,
    ensures
        msb_value(t) == (if t[0] { 128nat } else { 0 }) + (if t[1] { 64nat } else { 0 }) + (if t[2] {
            32nat
        } else {
            0
        }) + (if t[3] { 16nat } else { 0 }) + (if t[4] { 8nat } else { 0 }) + (if t[5] {
            4nat
        } else {
            0
        }) + (if t[6] { 2nat } else { 0 }) + (if t[7] { 1nat } else { 0 }),
{
    let t7 = t.drop_last();
    let t6 = t7.drop_last();
    let t5 = t6.drop_last();
    let t4 = t5.drop_last();
    let t3 = t4.drop_last();
    let t2 = t3.drop_last();
    let t1 = t2.drop_last();
    let t0 = t1.drop_last();
    assert(msb_value(t0) == 0);
    assert(msb_value(t1) == 2 * msb_value(t0) + if t[0] { 1nat } else { 0 });
    assert(msb_value(t2) == 2 * msb_value(t1) + if t[1] { 1nat } else { 0 });
    assert(msb_value(t3) == 2 * msb_value(t2) + if t[2] { 1nat } else { 0 });
    assert(msb_value(t4) == 2 * msb_value(t3) + if t[3] { 1nat } else { 0 });
    assert(msb_value(t5) == 2 * msb_value(t4) + if t[4] { 1nat } else { 0 });
    assert(msb_value(t6) == 2 * msb_value(t5) + if t[5] { 1nat } else { 0 });
    assert(msb_value(t7) == 2 * msb_value(t6) + if t[6] { 1nat } else { 0 });
    assert(msb_value(t) == 2 * msb_value(t7) + if t[7] { 1nat } else { 0 });
}

/// A byte is the sum of its bits, each at its weight.
proof fn lemma_byte_is_sum_of_bits(b: u8)
    ensures
        b == (if bit_of_byte(b, 0) { 128nat } else { 0 }) + (if bit_of_byte(b, 1) {
            64nat
        } else {
            0
        }) + (if bit_of_byte(b, 2) { 32nat } else { 0 }) + (if bit_of_byte(b, 3) {
            16nat
        } else {
            0
        }) + (if bit_of_byte(b, 4) { 8nat } else { 0 }) + (if bit_of_byte(b, 5) {
            4nat
        } else {
            0
        }) + (if bit_of_byte(b, 6) { 2nat } else { 0 }) + (if bit_of_byte(b, 7) {
            1nat
        } else {
            0
        }),
{
    assert(b == (if b & (0x80u8 >> 0u8) != 0 { 128u8 } else { 0 }) + (if b & (0x80u8 >> 1u8) != 0 {
        64u8
    } else {
        0
    }) + (if b & (0x80u8 >> 2u8) != 0 { 32u8 } else { 0 }) + (if b & (0x80u8 >> 3u8) != 0 {
        16u8
    } else {
        0
    }) + (if b & (0x80u8 >> 4u8) != 0 { 8u8 } else { 0 }) + (if b & (0x80u8 >> 5u8) != 0 {
        4u8
    } else {
        0
    }) + (if b & (0x80u8 >> 6u8) != 0 { 2u8 } else { 0 }) + (if b & (0x80u8 >> 7u8) != 0 {
        1u8
    } else {
        0
    })) by (bit_vector);
}

/// Byte `i` of a buffer is the number that bits `8 * i` to `8 * i + 7` of
/// the cursor over it denote: a cursor reads back the bytes it was laid over.
pub proof fn lemma_byte_of_bytes(bytes: Seq<u8>, i: int)
    requires
        0 <= i < bytes.len(),
    ensures
        field_value(bits_of_bytes(bytes), 8 * i, 8) == bytes[i],
{
    let t = bits_of_bytes(bytes).subrange(8 * i, 8 * i + 8);
    let b = bytes[i];
    assert forall|k: int| 0 <= k < 8 implies t[k] == bit_of_byte(b, k) by {
        assert((8 * i + k) / 8 == i);
        assert((8 * i + k) % 8 == k);
    }
    lemma_msb_value_of_eight(t);
    lemma_byte_is_sum_of_bits(b);
}

} // verus!
