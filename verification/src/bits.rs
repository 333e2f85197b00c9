//! Bit-level helpers: register fields and little-endian byte order.

use vstd::prelude::*;

verus! {

/// The field of `v` that starts at bit `lo` and is selected by `mask`.
pub open spec fn field32(v: u32, lo: u32, mask: u32) -> u32 {
    (v >> lo) & mask
}

/// `v` with the field at bit `lo` (selected by `mask`) replaced by `x`.
pub open spec fn with_field32(v: u32, lo: u32, mask: u32, x: u32) -> u32 {
    (v & !(mask << lo)) | ((x & mask) << lo)
}

pub open spec fn field16(v: u16, lo: u16, mask: u16) -> u16 {
    (v >> lo) & mask
}

pub open spec fn with_field16(v: u16, lo: u16, mask: u16, x: u16) -> u16 {
    (v & !(mask << lo)) | ((x & mask) << lo)
}

pub open spec fn field8(v: u8, lo: u8, mask: u8) -> u8 {
    (v >> lo) & mask
}

pub open spec fn with_field8(v: u8, lo: u8, mask: u8, x: u8) -> u8 {
    (v & !(mask << lo)) | ((x & mask) << lo)
}

pub fn get_field32(v: u32, lo: u32, mask: u32) -> (r: u32)
    requires
        lo < 32,
    ensures
        r == field32(v, lo, mask),
        r <= mask,
{
    proof {
        lemma_and_le32(v >> lo, mask);
    }
    (v >> lo) & mask
}

pub fn set_field32(v: u32, lo: u32, mask: u32, x: u32) -> (r: u32)
    requires
        lo < 32,
    ensures
        r == with_field32(v, lo, mask, x),
{
    (v & !(mask << lo)) | ((x & mask) << lo)
}

pub fn get_field16(v: u16, lo: u16, mask: u16) -> (r: u16)
    requires
        lo < 16,
    ensures
        r == field16(v, lo, mask),
        r <= mask,
{
    proof {
        lemma_and_le16(v >> lo, mask);
    }
    (v >> lo) & mask
}

pub fn set_field16(v: u16, lo: u16, mask: u16, x: u16) -> (r: u16)
    requires
        lo < 16,
    ensures
        r == with_field16(v, lo, mask, x),
{
    (v & !(mask << lo)) | ((x & mask) << lo)
}

pub fn get_field8(v: u8, lo: u8, mask: u8) -> (r: u8)
    requires
        lo < 8,
    ensures
        r == field8(v, lo, mask),
        r <= mask,
{
    proof {
        lemma_and_le8(v >> lo, mask);
    }
    (v >> lo) & mask
}

pub fn set_field8(v: u8, lo: u8, mask: u8, x: u8) -> (r: u8)
    requires
        lo < 8,
    ensures
        r == with_field8(v, lo, mask, x),
{
    (v & !(mask << lo)) | ((x & mask) << lo)
}

/// A field of at most 8 bits of a 32-bit value, as a byte.
pub open spec fn field32_u8(v: u32, lo: u32, mask: u32) -> u8 {
    field32(v, lo, mask) as u8
}

/// A field of at most 16 bits of a 32-bit value.
pub open spec fn field32_u16(v: u32, lo: u32, mask: u32) -> u16 {
    field32(v, lo, mask) as u16
}

/// A field of at most 8 bits of a 16-bit value, as a byte.
pub open spec fn field16_u8(v: u16, lo: u16, mask: u16) -> u8 {
    field16(v, lo, mask) as u8
}

pub open spec fn with_field32_u8(v: u32, lo: u32, mask: u32, x: u8) -> u32 {
    with_field32(v, lo, mask, x as u32)
}

pub open spec fn with_field32_u16(v: u32, lo: u32, mask: u32, x: u16) -> u32 {
    with_field32(v, lo, mask, x as u32)
}

pub open spec fn with_field16_u8(v: u16, lo: u16, mask: u16, x: u8) -> u16 {
    with_field16(v, lo, mask, x as u16)
}

pub fn get_field32_u8(v: u32, lo: u32, mask: u32) -> (r: u8)
    requires
        lo < 32,
        mask <= 0xff,
    ensures
        r == field32_u8(v, lo, mask),
        r as u32 == field32(v, lo, mask),
        r <= mask,
{
    let x = get_field32(v, lo, mask);
    proof {
        lemma_and_le32(v >> lo, mask);
    }
    x as u8
}

pub fn get_field32_u16(v: u32, lo: u32, mask: u32) -> (r: u16)
    requires
        lo < 32,
        mask <= 0xffff,
    ensures
        r == field32_u16(v, lo, mask),
        r as u32 == field32(v, lo, mask),
        r <= mask,
{
    let x = get_field32(v, lo, mask);
    proof {
        lemma_and_le32(v >> lo, mask);
    }
    x as u16
}

pub fn get_field16_u8(v: u16, lo: u16, mask: u16) -> (r: u8)
    requires
        lo < 16,
        mask <= 0xff,
    ensures
        r == field16_u8(v, lo, mask),
        r as u16 == field16(v, lo, mask),
        r <= mask,
{
    let x = get_field16(v, lo, mask);
    proof {
        lemma_and_le16(v >> lo, mask);
    }
    x as u8
}

pub fn set_field32_u8(v: u32, lo: u32, mask: u32, x: u8) -> (r: u32)
    requires
        lo < 32,
    ensures
        r == with_field32_u8(v, lo, mask, x),
{
    set_field32(v, lo, mask, x as u32)
}

pub fn set_field32_u16(v: u32, lo: u32, mask: u32, x: u16) -> (r: u32)
    requires
        lo < 32,
    ensures
        r == with_field32_u16(v, lo, mask, x),
{
    set_field32(v, lo, mask, x as u32)
}

pub fn set_field16_u8(v: u16, lo: u16, mask: u16, x: u8) -> (r: u16)
    requires
        lo < 16,
    ensures
        r == with_field16_u8(v, lo, mask, x),
{
    set_field16(v, lo, mask, x as u16)
}

/// Masking never yields more than the mask.
pub proof fn lemma_and_le32(x: u32, m: u32)
    ensures
        x & m <= m,
{
    assert(x & m <= m) by (bit_vector);
}

pub proof fn lemma_and_le16(x: u16, m: u16)
    ensures
        x & m <= m,
{
    assert(x & m <= m) by (bit_vector);
}

pub proof fn lemma_and_le8(x: u8, m: u8)
    ensures
        x & m <= m,
{
    assert(x & m <= m) by (bit_vector);
}

/// Writing a field and reading it back gives the written value, cut to the
/// field's width.
pub proof fn lemma_field32_write_read(v: u32, lo: u32, mask: u32, x: u32)
    requires
        lo < 32,
        (mask << lo) >> lo == mask,
    ensures
        field32(with_field32(v, lo, mask, x), lo, mask) == x & mask,
{
    assert(field32(with_field32(v, lo, mask, x), lo, mask) == x & mask) by (bit_vector)
        requires
            lo < 32,
            (mask << lo) >> lo == mask,
    ;
}

/// Writing a field leaves every field that does not overlap it unchanged.
pub proof fn lemma_field32_write_other(v: u32, lo: u32, mask: u32, x: u32, lo2: u32, mask2: u32)
    requires
        lo < 32,
        lo2 < 32,
        (mask2 << lo2) >> lo2 == mask2,
        (mask << lo) & (mask2 << lo2) == 0,
    ensures
        field32(with_field32(v, lo, mask, x), lo2, mask2) == field32(v, lo2, mask2),
{
    assert(field32(with_field32(v, lo, mask, x), lo2, mask2) == field32(v, lo2, mask2))
        by (bit_vector)
        requires
            lo < 32,
            lo2 < 32,
            (mask2 << lo2) >> lo2 == mask2,
            (mask << lo) & (mask2 << lo2) == 0,
    ;
}

/// The four bytes of `v`, least significant first.
pub open spec fn le_bytes32(v: u32) -> Seq<u8> {
    seq![
        (v & 0xff) as u8,
        ((v >> 8u32) & 0xff) as u8,
        ((v >> 16u32) & 0xff) as u8,
        ((v >> 24u32) & 0xff) as u8,
    ]
}

/// The value of four bytes read least significant first.
pub open spec fn le_value32(b0: u8, b1: u8, b2: u8, b3: u8) -> u32 {
    (b0 as u32) | ((b1 as u32) << 8u32) | ((b2 as u32) << 16u32) | ((b3 as u32) << 24u32)
}

/// The value of the four bytes of `s` that start at index `at`.
pub open spec fn le_value32_at(s: Seq<u8>, at: int) -> u32 {
    le_value32(s[at], s[at + 1], s[at + 2], s[at + 3])
}

/// The value of two bytes read least significant first.
pub open spec fn le_value16(b0: u8, b1: u8) -> u16 {
    (b0 as u16) | ((b1 as u16) << 8u16)
}

/// Decodes two bytes, least significant first.
pub fn le16_value(b0: u8, b1: u8) -> (r: u16)
    ensures
        r == le_value16(b0, b1),
{
    (b0 as u16) | ((b1 as u16) << 8u16)
}

/// The two bytes of `v`, least significant first.
pub open spec fn le_bytes16(v: u16) -> Seq<u8> {
    seq![(v & 0xff) as u8, ((v >> 8u16) & 0xff) as u8]
}

/// Encoding a word in little-endian order and decoding it gives it back.
pub proof fn lemma_le32_roundtrip(v: u32)
    ensures
        le_value32_at(le_bytes32(v), 0) == v,
{
    let b = le_bytes32(v);
    let b0 = (v & 0xff) as u8;
    let b1 = ((v >> 8u32) & 0xff) as u8;
    let b2 = ((v >> 16u32) & 0xff) as u8;
    let b3 = ((v >> 24u32) & 0xff) as u8;
    assert(b[0] == b0 && b[1] == b1 && b[2] == b2 && b[3] == b3);
    assert(le_value32(b0, b1, b2, b3) == v) by (bit_vector)
        requires
            b0 == (v & 0xff) as u8,
            b1 == ((v >> 8u32) & 0xff) as u8,
            b2 == ((v >> 16u32) & 0xff) as u8,
            b3 == ((v >> 24u32) & 0xff) as u8,
    ;
}

/// Encodes `v` as four bytes, least significant first.
pub fn le32_bytes(v: u32) -> (r: [u8; 4])
    ensures
        r@ == le_bytes32(v),
{
    let r = [
        (v & 0xff) as u8,
        ((v >> 8u32) & 0xff) as u8,
        ((v >> 16u32) & 0xff) as u8,
        ((v >> 24u32) & 0xff) as u8,
    ];
    assert(r@ =~= le_bytes32(v));
    r
}

/// Encodes `v` as two bytes, least significant first.
pub fn le16_bytes(v: u16) -> (r: [u8; 2])
    ensures
        r@ == le_bytes16(v),
{
    let r = [(v & 0xff) as u8, ((v >> 8u16) & 0xff) as u8];
    assert(r@ =~= le_bytes16(v));
    r
}

/// Decodes the four bytes of `s` that start at `at`, least significant first.
pub fn le32_value_at(s: &[u8], at: usize) -> (r: u32)
    requires
        at + 4 <= s@.len(),
    ensures
        r == le_value32_at(s@, at as int),
{
    (s[at] as u32) | ((s[at + 1] as u32) << 8u32) | ((s[at + 2] as u32) << 16u32) | ((
    s[at + 3] as u32) << 24u32)
}

} // verus!
