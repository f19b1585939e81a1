//! The header's primitive values as bytes: little-endian integers, signed
//! values in two's complement, and text of a fixed width.

use vstd::prelude::*;

verus! {

/// The signed value that the byte `b` stands for in two's complement.
pub open spec fn signed8(b: u8) -> i8 {
    if b >= 0x80 {
        (b - 0x100) as i8
    } else {
        b as i8
    }
}

/// The byte that stands for `x` in two's complement.
pub open spec fn unsigned8(x: i8) -> u8 {
    if x < 0 {
        (x + 0x100) as u8
    } else {
        x as u8
    }
}

/// The signed value that the word `v` stands for in two's complement.
pub open spec fn signed32(v: u32) -> i32 {
    if v >= 0x8000_0000 {
        (v - 0x1_0000_0000) as i32
    } else {
        v as i32
    }
}

/// The word that stands for `x` in two's complement.
pub open spec fn unsigned32(x: i32) -> u32 {
    if x < 0 {
        (x + 0x1_0000_0000) as u32
    } else {
        x as u32
    }
}

/// Whether the bit of weight `weight` (a power of two) is set in `w`.
pub open spec fn has_bit(w: u32, weight: int) -> bool {
    (w as int / weight) % 2 == 1
}

/// Byte `k` of `v`, counted from the least significant one.
pub open spec fn le_byte(v: u32, k: int) -> u8 {
    if k == 0 {
        (v % 0x100) as u8
    } else if k == 1 {
        (v / 0x100 % 0x100) as u8
    } else if k == 2 {
        (v / 0x1_0000 % 0x100) as u8
    } else {
        (v / 0x100_0000 % 0x100) as u8
    }
}

/// The two bytes of `v`, least significant first.
pub open spec fn u16_bytes(v: u16) -> Seq<u8> {
    Seq::new(2, |k: int| le_byte(v as u32, k))
}

/// The four bytes of `v`, least significant first.
pub open spec fn u32_bytes(v: u32) -> Seq<u8> {
    Seq::new(4, |k: int| le_byte(v, k))
}

/// The 16-bit value whose little-endian bytes stand at `at` in `s`.
pub open spec fn u16_at(s: Seq<u8>, at: int) -> u16 {
    (s[at] + 0x100 * s[at + 1]) as u16
}

/// The 32-bit value whose little-endian bytes stand at `at` in `s`.
pub open spec fn u32_at(s: Seq<u8>, at: int) -> u32 {
    (s[at] + 0x100 * s[at + 1] + 0x1_0000 * s[at + 2] + 0x100_0000 * s[at + 3]) as u32
}

/// The signed 32-bit value whose little-endian bytes stand at `at` in `s`.
pub open spec fn i32_at(s: Seq<u8>, at: int) -> i32 {
    signed32(u32_at(s, at))
}

/// `text` in a field of `width` bytes: the text, then zeros up to the width.
pub open spec fn padded(text: Seq<u8>, width: int) -> Seq<u8> {
    Seq::new(
        width as nat,
        |i: int|
            if i < text.len() {
                text[i]
            } else {
                0u8
            },
    )
}

/// Whether every byte of `text` is an ASCII character.
pub open spec fn is_ascii(text: Seq<u8>) -> bool {
    forall|i: int| 0 <= i < text.len() ==> text[i] < 0x80
}

/// `base` with the bytes from `at` on replaced by `data`; the length stays.
pub open spec fn overwrite(base: Seq<u8>, at: int, data: Seq<u8>) -> Seq<u8> {
    Seq::new(
        base.len(),
        |i: int|
            if at <= i < at + data.len() {
                data[i - at]
            } else {
                base[i]
            },
    )
}

/// A signed byte and the byte that stores it name each other.
pub proof fn lemma_signed8_round_trip(x: i8, b: u8)
    ensures
        signed8(unsigned8(x)) == x,
        unsigned8(signed8(b)) == b,
{
}

/// A signed word and the word that stores it name each other.
pub proof fn lemma_signed32_round_trip(x: i32, v: u32)
    ensures
        signed32(unsigned32(x)) == x,
        unsigned32(signed32(v)) == v,
{
}

/// Where the four little-endian bytes of `v` stand at `at`, `v` is read
/// there.
pub proof fn lemma_u32_read_back(s: Seq<u8>, at: int, v: u32)
    requires
        s[at] == le_byte(v, 0),
        s[at + 1] == le_byte(v, 1),
        s[at + 2] == le_byte(v, 2),
        s[at + 3] == le_byte(v, 3),
    ensures
        u32_at(s, at) == v,
{
}

/// Where the two little-endian bytes of `v` stand at `at`, `v` is read
/// there.
pub proof fn lemma_u16_read_back(s: Seq<u8>, at: int, v: u16)
    requires
        s[at] == le_byte(v as u32, 0),
        s[at + 1] == le_byte(v as u32, 1),
    ensures
        u16_at(s, at) == v,
{
}

/// Reads the 16-bit little-endian value at `at`.
pub fn read_u16(buf: &[u8], at: usize) -> (v: u16)
    requires
        at + 2 <= buf.len(),
    ensures
        v == u16_at(buf@, at as int),
{
    let b0 = buf[at] as u16;
    let b1 = buf[at + 1] as u16;
    b0 + b1 * 0x100
}

/// Reads the 32-bit little-endian value at `at`.
pub fn read_u32(buf: &[u8], at: usize) -> (v: u32)
    requires
        at + 4 <= buf.len(),
    ensures
        v == u32_at(buf@, at as int),
{
    let b0 = buf[at] as u32;
    let b1 = buf[at + 1] as u32;
    let b2 = buf[at + 2] as u32;
    let b3 = buf[at + 3] as u32;
    b0 + b1 * 0x100 + b2 * 0x1_0000 + b3 * 0x100_0000
}

/// Reads the signed 32-bit little-endian value at `at`.
pub fn read_i32(buf: &[u8], at: usize) -> (x: i32)
    requires
        at + 4 <= buf.len(),
    ensures
        x == i32_at(buf@, at as int),
{
    let v = read_u32(buf, at);
    assert(v as i32 == (if v >= 0x8000_0000u32 {
        (v - 0x1_0000_0000) as i32
    } else {
        v as i32
    })) by (bit_vector);
    v as i32
}

/// Copies the `width` bytes at `at` out of `buf`.
pub fn read_bytes(buf: &[u8], at: usize, width: usize) -> (out: Vec<u8>)
    requires
        at + width <= buf.len(),
    ensures
        out@ == buf@.subrange(at as int, at + width),
{
    let mut out: Vec<u8> = Vec::new();
    let mut k: usize = 0;
    while k < width
        invariant
            k <= width,
            at + width <= buf.len(),
            out@ == buf@.subrange(at as int, at + k),
        decreases width - k,
    {
        out.push(buf[at + k]);
        k = k + 1;
    }
    out
}

/// Tells whether every byte of `text` is an ASCII character.
pub fn all_ascii(text: &[u8]) -> (b: bool)
    ensures
        b == is_ascii(text@),
{
    let mut k: usize = 0;
    while k < text.len()
        invariant
            k <= text.len(),
            forall|i: int| 0 <= i < k ==> text@[i] < 0x80,
        decreases text.len() - k,
    {
        if text[k] >= 0x80 {
            return false;
        }
        k = k + 1;
    }
    true
}

/// A buffer of `n` zero bytes.
pub fn zeroed(n: usize) -> (out: Vec<u8>)
    ensures
        out@ == Seq::new(n as nat, |i: int| 0u8),
{
    let mut out: Vec<u8> = Vec::new();
    let mut k: usize = 0;
    while k < n
        invariant
            k <= n,
            out@ == Seq::new(k as nat, |i: int| 0u8),
        decreases n - k,
    {
        out.push(0);
        k = k + 1;
    }
    out
}

/// Puts `data` into `out` from `at` on, over what was there.
pub fn write_bytes(out: &mut Vec<u8>, at: usize, data: &[u8])
    requires
        at + data.len() <= old(out).len(),
    ensures
        final(out)@ == overwrite(old(out)@, at as int, data@),
{
    let mut k: usize = 0;
    while k < data.len()
        invariant
            k <= data.len(),
            at + data.len() <= out.len(),
            out@ == overwrite(old(out)@, at as int, data@.take(k as int)),
        decreases data.len() - k,
    {
        out[at + k] = data[k];
        k = k + 1;
    }
}

/// Puts the two little-endian bytes of `v` into `out` at `at`.
pub fn write_u16(out: &mut Vec<u8>, at: usize, v: u16)
    requires
        at + 2 <= old(out).len(),
    ensures
        final(out)@ == overwrite(old(out)@, at as int, u16_bytes(v)),
{
    out[at] = (v % 0x100) as u8;
    out[at + 1] = (v / 0x100) as u8;
}

/// Puts the four little-endian bytes of `v` into `out` at `at`.
pub fn write_u32(out: &mut Vec<u8>, at: usize, v: u32)
    requires
        at + 4 <= old(out).len(),
    ensures
        final(out)@ == overwrite(old(out)@, at as int, u32_bytes(v)),
{
    out[at] = (v % 0x100) as u8;
    out[at + 1] = (v / 0x100 % 0x100) as u8;
    out[at + 2] = (v / 0x1_0000 % 0x100) as u8;
    out[at + 3] = (v / 0x100_0000) as u8;
}

/// Puts the four little-endian bytes of the signed `x` into `out` at `at`.
pub fn write_i32(out: &mut Vec<u8>, at: usize, x: i32)
    requires
        at + 4 <= old(out).len(),
    ensures
        final(out)@ == overwrite(old(out)@, at as int, u32_bytes(unsigned32(x))),
{
    assert(x as u32 == (if x < 0 {
        (x + 0x1_0000_0000) as u32
    } else {
        x as u32
    })) by (bit_vector);
    write_u32(out, at, x as u32);
}

} // verus!
