//! Little-endian byte images of unsigned integers.
use vstd::prelude::*;

verus! {

/// The value of a 2-byte little-endian image.
pub open spec fn le16(b: Seq<u8>) -> u16 {
    (b[0] as u16) | ((b[1] as u16) << 8u16)
}

/// The value of a 4-byte little-endian image.
pub open spec fn le32(b: Seq<u8>) -> u32 {
    (b[0] as u32) | ((b[1] as u32) << 8u32) | ((b[2] as u32) << 16u32) | ((b[3] as u32) << 24u32)
}

/// The value of an 8-byte little-endian image.
pub open spec fn le64(b: Seq<u8>) -> u64 {
    (b[0] as u64) | ((b[1] as u64) << 8u64) | ((b[2] as u64) << 16u64) | ((b[3] as u64) << 24u64)
        | ((b[4] as u64) << 32u64) | ((b[5] as u64) << 40u64) | ((b[6] as u64) << 48u64) | ((
    b[7] as u64) << 56u64)
}

/// Byte `i` (counting from the least significant) of a 64-bit value.
pub open spec fn byte_of(x: u64, i: u64) -> u8 {
    ((x >> (8 * i)) & 0xff) as u8
}

/// The 2-byte little-endian image of a value.
pub open spec fn image16(x: u16) -> Seq<u8> {
    seq![byte_of(x as u64, 0), byte_of(x as u64, 1)]
}

/// The 4-byte little-endian image of a value.
pub open spec fn image32(x: u32) -> Seq<u8> {
    seq![byte_of(x as u64, 0), byte_of(x as u64, 1), byte_of(x as u64, 2), byte_of(x as u64, 3)]
}

/// The 8-byte little-endian image of a value.
pub open spec fn image64(x: u64) -> Seq<u8> {
    seq![
        byte_of(x, 0),
        byte_of(x, 1),
        byte_of(x, 2),
        byte_of(x, 3),
        byte_of(x, 4),
        byte_of(x, 5),
        byte_of(x, 6),
        byte_of(x, 7),
    ]
}

proof fn lemma_byte_of_u16(x: u16)
    ensures
        byte_of(x as u64, 0) == (x & 0xff) as u8,
        byte_of(x as u64, 1) == ((x >> 8) & 0xff) as u8,
{
    let y = x as u64;
    assert(((y >> 0u64) & 0xff) as u8 == (x & 0xff) as u8) by (bit_vector)
        requires
            y == x as u64,
    ;
    assert(((y >> 8u64) & 0xff) as u8 == ((x >> 8) & 0xff) as u8) by (bit_vector)
        requires
            y == x as u64,
    ;
}

/// A 16-bit value survives its image.
pub proof fn lemma_le16_image(x: u16)
    ensures
        image16(x).len() == 2,
        le16(image16(x)) == x,
{
    lemma_byte_of_u16(x);
    let b0 = (x & 0xff) as u8;
    let b1 = ((x >> 8) & 0xff) as u8;
    assert((b0 as u16) | ((b1 as u16) << 8u16) == x) by (bit_vector)
        requires
            b0 == (x & 0xff) as u8,
            b1 == ((x >> 8) & 0xff) as u8,
    ;
}

/// A 2-byte image survives its value.
pub proof fn lemma_image16_le(b: Seq<u8>)
    requires
        b.len() == 2,
    ensures
        image16(le16(b)) == b,
{
    let x = le16(b);
    lemma_byte_of_u16(x);
    let b0 = b[0];
    let b1 = b[1];
    assert(((x & 0xff) as u8 == b0) && (((x >> 8) & 0xff) as u8 == b1)) by (bit_vector)
        requires
            x == (b0 as u16) | ((b1 as u16) << 8u16),
    ;
    assert(image16(x) =~= b);
}

proof fn lemma_byte_of_u32(x: u32)
    ensures
        byte_of(x as u64, 0) == (x & 0xff) as u8,
        byte_of(x as u64, 1) == ((x >> 8) & 0xff) as u8,
        byte_of(x as u64, 2) == ((x >> 16) & 0xff) as u8,
        byte_of(x as u64, 3) == ((x >> 24) & 0xff) as u8,
{
    let y = x as u64;
    assert(((y >> 0u64) & 0xff) as u8 == (x & 0xff) as u8) by (bit_vector)
        requires
            y == x as u64,
    ;
    assert(((y >> 8u64) & 0xff) as u8 == ((x >> 8) & 0xff) as u8) by (bit_vector)
        requires
            y == x as u64,
    ;
    assert(((y >> 16u64) & 0xff) as u8 == ((x >> 16) & 0xff) as u8) by (bit_vector)
        requires
            y == x as u64,
    ;
    assert(((y >> 24u64) & 0xff) as u8 == ((x >> 24) & 0xff) as u8) by (bit_vector)
        requires
            y == x as u64,
    ;
}

/// A 32-bit value survives its image.
pub proof fn lemma_le32_image(x: u32)
    ensures
        image32(x).len() == 4,
        le32(image32(x)) == x,
{
    lemma_byte_of_u32(x);
    let b0 = (x & 0xff) as u8;
    let b1 = ((x >> 8) & 0xff) as u8;
    let b2 = ((x >> 16) & 0xff) as u8;
    let b3 = ((x >> 24) & 0xff) as u8;
    assert((b0 as u32) | ((b1 as u32) << 8u32) | ((b2 as u32) << 16u32) | ((b3 as u32) << 24u32)
        == x) by (bit_vector)
        requires
            b0 == (x & 0xff) as u8,
            b1 == ((x >> 8) & 0xff) as u8,
            b2 == ((x >> 16) & 0xff) as u8,
            b3 == ((x >> 24) & 0xff) as u8,
    ;
}

/// A 4-byte image survives its value.
pub proof fn lemma_image32_le(b: Seq<u8>)
    requires
        b.len() == 4,
    ensures
        image32(le32(b)) == b,
{
    let x = le32(b);
    lemma_byte_of_u32(x);
    let b0 = b[0];
    let b1 = b[1];
    let b2 = b[2];
    let b3 = b[3];
    assert(((x & 0xff) as u8 == b0) && (((x >> 8) & 0xff) as u8 == b1) && (((x >> 16) & 0xff) as u8
        == b2) && (((x >> 24) & 0xff) as u8 == b3)) by (bit_vector)
        requires
            x == (b0 as u32) | ((b1 as u32) << 8u32) | ((b2 as u32) << 16u32) | ((b3 as u32)
                << 24u32),
    ;
    assert(image32(x) =~= b);
}

/// A 64-bit value survives its image.
pub proof fn lemma_le64_image(x: u64)
    ensures
        image64(x).len() == 8,
        le64(image64(x)) == x,
{
    let b0 = byte_of(x, 0);
    let b1 = byte_of(x, 1);
    let b2 = byte_of(x, 2);
    let b3 = byte_of(x, 3);
    let b4 = byte_of(x, 4);
    let b5 = byte_of(x, 5);
    let b6 = byte_of(x, 6);
    let b7 = byte_of(x, 7);
    assert((b0 as u64) | ((b1 as u64) << 8u64) | ((b2 as u64) << 16u64) | ((b3 as u64) << 24u64)
        | ((b4 as u64) << 32u64) | ((b5 as u64) << 40u64) | ((b6 as u64) << 48u64) | ((b7 as u64)
        << 56u64) == x) by (bit_vector)
        requires
            b0 == ((x >> 0u64) & 0xff) as u8,
            b1 == ((x >> 8u64) & 0xff) as u8,
            b2 == ((x >> 16u64) & 0xff) as u8,
            b3 == ((x >> 24u64) & 0xff) as u8,
            b4 == ((x >> 32u64) & 0xff) as u8,
            b5 == ((x >> 40u64) & 0xff) as u8,
            b6 == ((x >> 48u64) & 0xff) as u8,
            b7 == ((x >> 56u64) & 0xff) as u8,
    ;
}

/// An 8-byte image survives its value.
pub proof fn lemma_image64_le(b: Seq<u8>)
    requires
        b.len() == 8,
    ensures
        image64(le64(b)) == b,
{
    let x = le64(b);
    let b0 = b[0];
    let b1 = b[1];
    let b2 = b[2];
    let b3 = b[3];
    let b4 = b[4];
    let b5 = b[5];
    let b6 = b[6];
    let b7 = b[7];
    assert(((x >> 0u64) & 0xff) as u8 == b0 && ((x >> 8u64) & 0xff) as u8 == b1 && ((x >> 16u64)
        & 0xff) as u8 == b2 && ((x >> 24u64) & 0xff) as u8 == b3 && ((x >> 32u64) & 0xff) as u8
        == b4 && ((x >> 40u64) & 0xff) as u8 == b5 && ((x >> 48u64) & 0xff) as u8 == b6 && ((x
        >> 56u64) & 0xff) as u8 == b7) by (bit_vector)
        requires
            x == (b0 as u64) | ((b1 as u64) << 8u64) | ((b2 as u64) << 16u64) | ((b3 as u64)
                << 24u64) | ((b4 as u64) << 32u64) | ((b5 as u64) << 40u64) | ((b6 as u64)
                << 48u64) | ((b7 as u64) << 56u64),
    ;
    assert(image64(x) =~= b);
}

/// The low bytes of an 8-byte image are the images of the truncated value.
pub proof fn lemma_le64_truncations(b: Seq<u8>)
    requires
        b.len() == 8,
    ensures
        le32(b.subrange(0, 4)) == le64(b) as u32,
        le16(b.subrange(0, 2)) == le64(b) as u16,
        b[0] == le64(b) as u8,
        b[1] == (le64(b) >> 8u64) as u8,
{
    let x = le64(b);
    let b0 = b[0];
    let b1 = b[1];
    let b2 = b[2];
    let b3 = b[3];
    let b4 = b[4];
    let b5 = b[5];
    let b6 = b[6];
    let b7 = b[7];
    assert((x as u32 == (b0 as u32) | ((b1 as u32) << 8u32) | ((b2 as u32) << 16u32) | ((
    b3 as u32) << 24u32)) && (x as u16 == (b0 as u16) | ((b1 as u16) << 8u16)) && (x as u8
        == b0) && ((x >> 8u64) as u8 == b1)) by (bit_vector)
        requires
            x == (b0 as u64) | ((b1 as u64) << 8u64) | ((b2 as u64) << 16u64) | ((b3 as u64)
                << 24u64) | ((b4 as u64) << 32u64) | ((b5 as u64) << 40u64) | ((b6 as u64)
                << 48u64) | ((b7 as u64) << 56u64),
    ;
}

/// The value of a 2-byte little-endian slice.
pub fn read_le16(b: &[u8]) -> (r: u16)
    requires
        b@.len() == 2,
    ensures
        r == le16(b@),
{
    (b[0] as u16) | ((b[1] as u16) << 8u16)
}

/// The value of a 4-byte little-endian slice.
pub fn read_le32(b: &[u8]) -> (r: u32)
    requires
        b@.len() == 4,
    ensures
        r == le32(b@),
{
    (b[0] as u32) | ((b[1] as u32) << 8u32) | ((b[2] as u32) << 16u32) | ((b[3] as u32) << 24u32)
}

/// The value of an 8-byte little-endian slice.
pub fn read_le64(b: &[u8]) -> (r: u64)
    requires
        b@.len() == 8,
    ensures
        r == le64(b@),
{
    (b[0] as u64) | ((b[1] as u64) << 8u64) | ((b[2] as u64) << 16u64) | ((b[3] as u64) << 24u64)
        | ((b[4] as u64) << 32u64) | ((b[5] as u64) << 40u64) | ((b[6] as u64) << 48u64) | ((
    b[7] as u64) << 56u64)
}

/// Byte `i` (counting from the least significant) of a 64-bit value.
pub fn get_byte(x: u64, i: u64) -> (r: u8)
    requires
        i < 8,
    ensures
        r == byte_of(x, i),
{
    ((x >> (8 * i)) & 0xff) as u8
}

/// The `n` low bytes of `x`, least significant first.
pub open spec fn low_bytes(x: u64, n: nat) -> Seq<u8> {
    Seq::new(n, |k: int| byte_of(x, k as u64))
}

/// Appends the `n` low bytes of `x`, least significant first, to `out`.
pub fn push_le(out: &mut Vec<u8>, x: u64, n: u64)
    requires
        n <= 8,
    ensures
        final(out)@ == old(out)@ + low_bytes(x, n as nat),
{
    let mut i: u64 = 0;
    while i < n
        invariant
            i <= n <= 8,
            out@.len() == old(out)@.len() + i,
            forall|j: int| 0 <= j < old(out)@.len() ==> #[trigger] out@[j] == old(out)@[j],
            forall|j: int|
                old(out)@.len() <= j < out@.len() ==> #[trigger] out@[j] == byte_of(
                    x,
                    (j - old(out)@.len()) as u64,
                ),
        decreases n - i,
    {
        let b = get_byte(x, i);
        out.push(b);
        i = i + 1;
    }
    assert(out@ =~= old(out)@ + low_bytes(x, n as nat));
}

} // verus!
