//! Values of allocator slots as bytes.
//!
//! The allocator moves untyped bytes; every slot this library reads or
//! writes holds an unsigned integer of fixed width, or a boolean kept in
//! one byte. The integers lie in memory in the byte order of the machine,
//! which is a parameter here.

use vstd::prelude::*;

verus! {

/// The order in which the bytes of an integer lie in memory.
#[derive(Clone, Copy, Debug, PartialEq, Eq, Structural)]
pub enum ByteOrder {
    /// Least significant byte first.
    Little,
    /// Most significant byte first.
    Big,
}

/// Number of bytes of a 32-bit slot.
pub const U32_WIDTH: usize = 4;

/// Number of bytes of a 64-bit slot.
pub const U64_WIDTH: usize = 8;

/// Number of bytes of a boolean slot.
pub const BOOL_WIDTH: usize = 1;

/// Number of bytes of a slot that holds a size or an address.
pub open spec fn word_width() -> nat {
    (usize::BITS / 8) as nat
}

/// The number of values that `width` bytes can hold.
pub open spec fn radix(width: nat) -> nat
    decreases width,
{
    if width == 0 {
        1
    } else {
        256 * radix((width - 1) as nat)
    }
}

/// The number whose digits in base 256 are `bytes`, lowest digit first.
pub open spec fn le_value(bytes: Seq<u8>) -> nat
    decreases bytes.len(),
{
    if bytes.len() == 0 {
        0
    } else {
        bytes[0] as nat + 256 * le_value(bytes.drop_first())
    }
}

/// The lowest `width` digits of `v` in base 256, lowest digit first.
pub open spec fn le_bytes(v: nat, width: nat) -> Seq<u8>
    decreases width,
{
    if width == 0 {
        Seq::<u8>::empty()
    } else {
        seq![(v % 256) as u8] + le_bytes(v / 256, (width - 1) as nat)
    }
}

/// The integer that `bytes` hold in the given order.
pub open spec fn value_of(order: ByteOrder, bytes: Seq<u8>) -> nat {
    match order {
        ByteOrder::Little => le_value(bytes),
        ByteOrder::Big => le_value(bytes.reverse()),
    }
}

/// The `width` bytes that hold `v` in the given order.
pub open spec fn bytes_of(order: ByteOrder, v: nat, width: nat) -> Seq<u8> {
    match order {
        ByteOrder::Little => le_bytes(v, width),
        ByteOrder::Big => le_bytes(v, width).reverse(),
    }
}

/// The byte that holds a boolean.
pub open spec fn bool_bytes(b: bool) -> Seq<u8> {
    seq![if b { 1u8 } else { 0u8 }]
}

/// The boolean that a one-byte slot holds: anything but zero is true.
pub open spec fn bool_of(bytes: Seq<u8>) -> bool {
    bytes[0] != 0
}

/// The radix of every width that a slot can have.
pub proof fn lemma_radix_values()
    ensures
        radix(0) == 1,
        radix(1) == 0x100,
        radix(2) == 0x1_0000,
        radix(3) == 0x100_0000,
        radix(4) == 0x1_0000_0000,
        radix(5) == 0x100_0000_0000,
        radix(6) == 0x1_0000_0000_0000,
        radix(7) == 0x100_0000_0000_0000,
        radix(8) == 0x1_0000_0000_0000_0000,
{
    reveal_with_fuel(radix, 9);
}

/// The radix is positive and grows with the width.
pub proof fn lemma_radix_grows(a: nat, b: nat)
    requires
        a <= b,
    ensures
        0 < radix(a) <= radix(b),
    decreases b,
{
    if a < b {
        lemma_radix_grows(a, (b - 1) as nat);
    } else if b > 0 {
        lemma_radix_grows((a - 1) as nat, (b - 1) as nat);
    }
}

/// `le_bytes` gives as many bytes as asked for.
pub proof fn lemma_le_bytes_len(v: nat, width: nat)
    ensures
        le_bytes(v, width).len() == width,
    decreases width,
{
    if width > 0 {
        lemma_le_bytes_len(v / 256, (width - 1) as nat);
    }
}

/// What bytes hold is below the radix of their number.
pub proof fn lemma_le_value_bound(bytes: Seq<u8>)
    ensures
        le_value(bytes) < radix(bytes.len()),
    decreases bytes.len(),
{
    if bytes.len() > 0 {
        lemma_le_value_bound(bytes.drop_first());
    }
}

/// Reading back the little-endian bytes of a number that fits gives the
/// number.
pub proof fn lemma_le_value_of_bytes(v: nat, width: nat)
    requires
        v < radix(width),
    ensures
        le_value(le_bytes(v, width)) == v,
    decreases width,
{
    if width > 0 {
        let rest = le_bytes(v / 256, (width - 1) as nat);
        let all = le_bytes(v, width);
        assert(all.drop_first() =~= rest);
        assert(v / 256 < radix((width - 1) as nat)) by (nonlinear_arith)
            requires
                v < 256 * radix((width - 1) as nat),
        ;
        lemma_le_value_of_bytes(v / 256, (width - 1) as nat);
        assert(v == (v % 256) + 256 * (v / 256)) by (nonlinear_arith);
    }
}

/// Writing out what bytes hold gives the bytes again.
pub proof fn lemma_le_bytes_of_value(bytes: Seq<u8>)
    ensures
        le_bytes(le_value(bytes), bytes.len()) == bytes,
    decreases bytes.len(),
{
    if bytes.len() > 0 {
        let rest = bytes.drop_first();
        let v = le_value(bytes);
        let b = bytes[0] as nat;
        let r = le_value(rest);
        lemma_le_bytes_of_value(rest);
        assert(v == b + 256 * r);
        assert((b + 256 * r) % 256 == b && (b + 256 * r) / 256 == r) by (nonlinear_arith)
            requires
                b < 256,
        ;
        assert(le_bytes(v, bytes.len()) =~= bytes);
    } else {
        assert(le_bytes(le_value(bytes), bytes.len()) =~= bytes);
    }
}

/// `bytes_of` gives as many bytes as asked for.
pub proof fn lemma_bytes_of_len(order: ByteOrder, v: nat, width: nat)
    ensures
        bytes_of(order, v, width).len() == width,
{
    lemma_le_bytes_len(v, width);
}

/// What bytes hold, in either order, is below the radix of their number.
pub proof fn lemma_value_of_bound(order: ByteOrder, bytes: Seq<u8>)
    ensures
        value_of(order, bytes) < radix(bytes.len()),
{
    lemma_le_value_bound(bytes);
    lemma_le_value_bound(bytes.reverse());
}

/// Decoding is the inverse of encoding: the bytes written for a number
/// that fits the width read back as that number, in either byte order.
pub proof fn lemma_value_of_bytes(order: ByteOrder, v: nat, width: nat)
    requires
        v < radix(width),
    ensures
        value_of(order, bytes_of(order, v, width)) == v,
{
    lemma_le_value_of_bytes(v, width);
    assert(le_bytes(v, width).reverse().reverse() =~= le_bytes(v, width));
}

/// Encoding is the inverse of decoding: writing what bytes hold, at their
/// own width, gives the same bytes, in either byte order.
pub proof fn lemma_bytes_of_value(order: ByteOrder, bytes: Seq<u8>)
    ensures
        bytes_of(order, value_of(order, bytes), bytes.len()) == bytes,
{
    lemma_le_bytes_of_value(bytes);
    lemma_le_bytes_of_value(bytes.reverse());
    assert(bytes.reverse().reverse() =~= bytes);
}

/// A boolean written to its byte reads back unchanged.
pub proof fn lemma_bool_of_bytes(b: bool)
    ensures
        bool_bytes(b).len() == 1,
        bool_of(bool_bytes(b)) == b,
{
}

/// `u16::from_ne_bytes` of std: the integer that two bytes hold in the byte
/// order of this machine. Every target keeps integers either lowest byte
/// first or highest byte first, and no more is claimed: which of the two
/// it is differs from machine to machine.
#[verifier::external_body]
fn native_u16(bytes: [u8; 2]) -> (r: u16)
    ensures
        r as nat == value_of(ByteOrder::Little, bytes@) || r as nat == value_of(
            ByteOrder::Big,
            bytes@,
        ),
{
    u16::from_ne_bytes(bytes)
}

impl ByteOrder {
    /// The byte order of a machine on which the bytes 1, 0 hold `probe`:
    /// lowest byte first where they hold 1, highest byte first otherwise.
    pub fn of_probe(probe: u16) -> (r: ByteOrder)
        ensures
            r == if probe == 1 {
                ByteOrder::Little
            } else {
                ByteOrder::Big
            },
    {
        if probe == 1 {
            ByteOrder::Little
        } else {
            ByteOrder::Big
        }
    }

    /// The byte order of the machine that runs this. Nothing is promised of
    /// the answer, which depends on the machine alone.
    pub fn native() -> (r: ByteOrder) {
        let probe: [u8; 2] = [1, 0];
        ByteOrder::of_probe(native_u16(probe))
    }
}

/// The width in bytes of a size or an address on this machine.
pub fn word_bytes() -> (r: usize)
    ensures
        r == word_width(),
        r == 4 || r == 8,
{
    broadcast use vstd::layout::layout_of_primitives;

    core::mem::size_of::<usize>()
}

/// Reverses a sequence of bytes.
fn reversed(bytes: &[u8]) -> (r: Vec<u8>)
    ensures
        r@ == bytes@.reverse(),
{
    let mut out: Vec<u8> = Vec::new();
    let mut i: usize = bytes.len();
    while i > 0
        invariant
            i <= bytes.len(),
            out@.len() == bytes.len() - i,
            forall|k: int| 0 <= k < out@.len() ==> out@[k] == bytes@[bytes.len() - 1 - k],
        decreases i,
    {
        i -= 1;
        out.push(bytes[i]);
    }
    assert(out@ =~= bytes@.reverse());
    out
}

/// Writes the lowest `width` bytes of `v` in the given order.
pub fn encode(v: u64, width: usize, order: ByteOrder) -> (r: Vec<u8>)
    requires
        width <= 8,
    ensures
        r@ == bytes_of(order, v as nat, width as nat),
        r@.len() == width,
{
    let mut out: Vec<u8> = Vec::new();
    let mut rest: u64 = v;
    let mut i: usize = 0;
    while i < width
        invariant
            i <= width,
            out@.len() == i,
            out@ + le_bytes(rest as nat, (width - i) as nat) == le_bytes(v as nat, width as nat),
        decreases width - i,
    {
        let digit: u8 = (rest % 256) as u8;
        proof {
            let tail = le_bytes((rest / 256) as nat, (width - i - 1) as nat);
            assert(le_bytes(rest as nat, (width - i) as nat) == seq![digit] + tail);
            assert(out@.push(digit) + tail =~= out@ + (seq![digit] + tail));
        }
        out.push(digit);
        rest = rest / 256;
        i += 1;
    }
    proof {
        assert(out@ + le_bytes(rest as nat, 0) =~= out@);
        lemma_le_bytes_len(v as nat, width as nat);
    }
    match order {
        ByteOrder::Little => out,
        ByteOrder::Big => reversed(out.as_slice()),
    }
}

/// Reads the integer that at most eight bytes hold in the given order.
pub fn decode(bytes: &[u8], order: ByteOrder) -> (r: u64)
    requires
        bytes.len() <= 8,
    ensures
        r as nat == value_of(order, bytes@),
        (r as nat) < radix(bytes@.len()),
{
    let n: usize = bytes.len();
    let mut acc: u64 = 0;
    proof {
        lemma_radix_values();
        lemma_value_of_bound(order, bytes@);
    }
    match order {
        ByteOrder::Little => {
            let mut i: usize = n;
            assert(bytes@.subrange(n as int, n as int) =~= Seq::<u8>::empty());
            while i > 0
                invariant
                    i <= n,
                    n == bytes.len(),
                    n <= 8,
                    acc as nat == le_value(bytes@.subrange(i as int, n as int)),
                decreases i,
            {
                proof {
                    let now = bytes@.subrange(i - 1, n as int);
                    assert(now.drop_first() =~= bytes@.subrange(i as int, n as int));
                    lemma_le_value_bound(bytes@.subrange(i as int, n as int));
                    lemma_le_value_bound(now);
                    lemma_radix_grows(now.len(), 8);
                    lemma_radix_values();
                }
                i -= 1;
                acc = acc * 256 + bytes[i] as u64;
            }
            assert(bytes@.subrange(0, n as int) =~= bytes@);
        },
        ByteOrder::Big => {
            let mut i: usize = 0;
            assert(bytes@.subrange(0, 0).reverse() =~= Seq::<u8>::empty());
            while i < n
                invariant
                    i <= n,
                    n == bytes.len(),
                    n <= 8,
                    acc as nat == le_value(bytes@.subrange(0, i as int).reverse()),
                decreases n - i,
            {
                proof {
                    let before = bytes@.subrange(0, i as int).reverse();
                    let now = bytes@.subrange(0, i + 1).reverse();
                    assert(now.drop_first() =~= before);
                    assert(now[0] == bytes@[i as int]);
                    lemma_le_value_bound(before);
                    lemma_le_value_bound(now);
                    lemma_radix_grows(now.len(), 8);
                    lemma_radix_values();
                }
                acc = acc * 256 + bytes[i] as u64;
                i += 1;
            }
            assert(bytes@.subrange(0, n as int) =~= bytes@);
        },
    }
    acc
}

/// Writes a 64-bit value.
pub fn encode_u64(v: u64, order: ByteOrder) -> (r: Vec<u8>)
    ensures
        r@ == bytes_of(order, v as nat, 8),
        r@.len() == 8,
{
    encode(v, U64_WIDTH, order)
}

/// Reads a 64-bit value.
pub fn decode_u64(bytes: &[u8], order: ByteOrder) -> (r: u64)
    requires
        bytes.len() == 8,
    ensures
        r as nat == value_of(order, bytes@),
{
    decode(bytes, order)
}

/// Writes a 32-bit value.
pub fn encode_u32(v: u32, order: ByteOrder) -> (r: Vec<u8>)
    ensures
        r@ == bytes_of(order, v as nat, 4),
        r@.len() == 4,
{
    encode(v as u64, U32_WIDTH, order)
}

/// Reads a 32-bit value.
pub fn decode_u32(bytes: &[u8], order: ByteOrder) -> (r: u32)
    requires
        bytes.len() == 4,
    ensures
        r as nat == value_of(order, bytes@),
{
    proof {
        lemma_radix_values();
    }
    decode(bytes, order) as u32
}

/// Writes a size or an address at the width of this machine.
pub fn encode_usize(v: usize, order: ByteOrder) -> (r: Vec<u8>)
    ensures
        r@ == bytes_of(order, v as nat, word_width()),
        r@.len() == word_width(),
{
    encode(v as u64, word_bytes(), order)
}

/// Reads a size or an address at the width of this machine.
pub fn decode_usize(bytes: &[u8], order: ByteOrder) -> (r: usize)
    requires
        bytes.len() == word_width(),
    ensures
        r as nat == value_of(order, bytes@),
{
    proof {
        lemma_radix_values();
    }
    decode(bytes, order) as usize
}

/// Writes a boolean as the allocator keeps it: one byte, 1 or 0.
pub fn encode_bool(b: bool) -> (r: Vec<u8>)
    ensures
        r@ == bool_bytes(b),
{
    let byte: u8 = if b { 1 } else { 0 };
    let mut out: Vec<u8> = Vec::new();
    out.push(byte);
    assert(out@ =~= bool_bytes(b));
    out
}

/// Reads a boolean from its byte by comparing the byte with zero.
pub fn decode_bool(bytes: &[u8]) -> (r: bool)
    requires
        bytes.len() == 1,
    ensures
        r == bool_of(bytes@),
{
    bytes[0] != 0
}

} // verus!
