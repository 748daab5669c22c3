//! Register value types and their memory images.
//!
//! A register value is stored in the tracee's user area as its memory image:
//! the little-endian byte order of x86-64, the only target whose user area
//! layout this library describes.
use vstd::slice::slice_subrange;

use crate::le::{
    get_byte, image16, image32, image64, le16, le32, le64, lemma_image16_le, lemma_image32_le,
    lemma_image64_le, lemma_le16_image, lemma_le32_image, lemma_le64_image, push_le, read_le16,
    read_le32, read_le64,
};
use vstd::prelude::*;

verus! {

broadcast use vstd::seq_lib::group_seq_properties;

/// The type of the value held by a register.
#[derive(Clone, Copy, Debug, PartialEq, Eq, Structural)]
pub enum RegisterType {
    U8,
    U16,
    U32,
    U64,
    F32,
    F64,
    F80,
    U8x8,
    U8x16,
}

impl RegisterType {
    /// Number of bytes that a value of this type occupies in memory.
    pub open spec fn spec_size(self) -> nat {
        match self {
            RegisterType::U8 => 1,
            RegisterType::U16 => 2,
            RegisterType::U32 => 4,
            RegisterType::U64 => 8,
            RegisterType::F32 => 4,
            RegisterType::F64 => 8,
            RegisterType::F80 => 16,
            RegisterType::U8x8 => 8,
            RegisterType::U8x16 => 16,
        }
    }

    /// The name of the type as the library prints it.
    pub open spec fn spec_name(self) -> Seq<char> {
        match self {
            RegisterType::U8 => "U8"@,
            RegisterType::U16 => "U16"@,
            RegisterType::U32 => "U32"@,
            RegisterType::U64 => "U64"@,
            RegisterType::F32 => "F32"@,
            RegisterType::F64 => "F64"@,
            RegisterType::F80 => "F80"@,
            RegisterType::U8x8 => "U8x8"@,
            RegisterType::U8x16 => "U8x16"@,
        }
    }

    /// The value of this type whose memory image is `b` (of `spec_size` bytes).
    pub open spec fn decode(self, b: Seq<u8>) -> RegisterValue {
        match self {
            RegisterType::U8 => RegisterValue::U8(b[0]),
            RegisterType::U16 => RegisterValue::U16(le16(b)),
            RegisterType::U32 => RegisterValue::U32(le32(b)),
            RegisterType::U64 => RegisterValue::U64(le64(b)),
            RegisterType::F32 => RegisterValue::F32(le32(b)),
            RegisterType::F64 => RegisterValue::F64(le64(b)),
            RegisterType::F80 => RegisterValue::F80(f80::from_image(b)),
            RegisterType::U8x8 => RegisterValue::U8x8(u8x8::from_image(b)),
            RegisterType::U8x16 => RegisterValue::U8x16(u8x16::from_image(b)),
        }
    }

    /// Number of bytes that a value of this type occupies in memory.
    pub fn size(self) -> (r: usize)
        ensures
            r == self.spec_size(),
    {
        match self {
            RegisterType::U8 => 1,
            RegisterType::U16 => 2,
            RegisterType::U32 => 4,
            RegisterType::U64 => 8,
            RegisterType::F32 => 4,
            RegisterType::F64 => 8,
            RegisterType::F80 => 16,
            RegisterType::U8x8 => 8,
            RegisterType::U8x16 => 16,
        }
    }

    /// The name of the type, as `Display` shows it.
    pub fn to_string(&self) -> (r: String)
        ensures
            r@ == self.spec_name(),
    {
        match self {
            RegisterType::U8 => String::from_str("U8"),
            RegisterType::U16 => String::from_str("U16"),
            RegisterType::U32 => String::from_str("U32"),
            RegisterType::U64 => String::from_str("U64"),
            RegisterType::F32 => String::from_str("F32"),
            RegisterType::F64 => String::from_str("F64"),
            RegisterType::F80 => String::from_str("F80"),
            RegisterType::U8x8 => String::from_str("U8x8"),
            RegisterType::U8x16 => String::from_str("U8x16"),
        }
    }

    /// Reads a value of this type from `area` at byte `offset`.
    pub fn read(self, area: &[u8], offset: usize) -> (r: RegisterValue)
        requires
            offset + self.spec_size() <= area@.len(),
        ensures
            r == self.decode(area@.subrange(offset as int, offset + self.spec_size())),
            r.spec_ty() == self,
    {
        let size = self.size();
        // The length is a `usize`, so the sums below, bounded by it, fit.
        let area_len = area.len();
        let bytes = slice_subrange(area, offset, offset + size);
        match self {
            RegisterType::U8 => RegisterValue::U8(bytes[0]),
            RegisterType::U16 => RegisterValue::U16(read_le16(bytes)),
            RegisterType::U32 => RegisterValue::U32(read_le32(bytes)),
            RegisterType::U64 => RegisterValue::U64(read_le64(bytes)),
            RegisterType::F32 => RegisterValue::F32(read_le32(bytes)),
            RegisterType::F64 => RegisterValue::F64(read_le64(bytes)),
            RegisterType::F80 => RegisterValue::F80(f80::from_image_exec(bytes)),
            RegisterType::U8x8 => RegisterValue::U8x8(u8x8::from_image_exec(bytes)),
            RegisterType::U8x16 => RegisterValue::U8x16(u8x16::from_image_exec(bytes)),
        }
    }
}

/// The bytes of a u64 followed by the bytes of another, as one 16-byte image.
pub open spec fn pair_image(lo: u64, hi: u64) -> Seq<u8> {
    image64(lo) + image64(hi)
}

/// Decodes two little-endian u64 values from a 16-byte slice.
fn pair_from_image(b: &[u8]) -> (r: (u64, u64))
    requires
        b@.len() == 16,
    ensures
        r.0 == le64(b@.subrange(0, 8)),
        r.1 == le64(b@.subrange(8, 16)),
{
    let lo = read_le64(slice_subrange(b, 0, 8));
    let hi = read_le64(slice_subrange(b, 8, 16));
    (lo, hi)
}

/// An 80-bit x87 floating-point register, held as its 16-byte slot image
/// (10 significant bytes followed by 6 bytes of padding).
#[allow(non_camel_case_types)]
#[derive(Clone, Copy, Debug)]
pub struct f80 {
    lo: u64,
    hi: u64,
}

impl f80 {
    /// The 16-byte memory image of the value.
    pub closed spec fn view(self) -> Seq<u8> {
        pair_image(self.lo, self.hi)
    }

    /// The value whose memory image is `b`.
    pub closed spec fn from_image(b: Seq<u8>) -> f80 {
        f80 {
            lo: le64(b.subrange(0, 8)),
            hi: le64(b.subrange(8, 16)),
        }
    }

    fn from_image_exec(b: &[u8]) -> (r: f80)
        requires
            b@.len() == 16,
        ensures
            r == f80::from_image(b@),
    {
        let (lo, hi) = pair_from_image(b);
        f80 { lo, hi }
    }

    /// The image of a value is 16 bytes long and decodes back to the value.
    pub proof fn lemma_image(self)
        ensures
            self.view().len() == 16,
            f80::from_image(self.view()) == self,
    {
        lemma_le64_image(self.lo);
        lemma_le64_image(self.hi);
        assert(self.view().subrange(0, 8) =~= image64(self.lo));
        assert(self.view().subrange(8, 16) =~= image64(self.hi));
    }

    /// Decoding a 16-byte image and taking the image back gives the same bytes.
    pub proof fn lemma_from_image(b: Seq<u8>)
        requires
            b.len() == 16,
        ensures
            f80::from_image(b).view() == b,
    {
        lemma_image64_le(b.subrange(0, 8));
        lemma_image64_le(b.subrange(8, 16));
        assert(b =~= b.subrange(0, 8) + b.subrange(8, 16));
    }

    /// Builds a value from its 10 significant bytes; the padding is zero.
    pub fn from_bytes(bytes: [u8; 10]) -> (r: f80)
        ensures
            r@ == bytes@ + seq![0u8, 0u8, 0u8, 0u8, 0u8, 0u8],
    {
        let img: [u8; 16] = [
            bytes[0], bytes[1], bytes[2], bytes[3], bytes[4], bytes[5], bytes[6], bytes[7],
            bytes[8], bytes[9], 0, 0, 0, 0, 0, 0,
        ];
        let r = f80::from_image_exec(img.as_slice());
        proof {
            f80::lemma_from_image(img@);
            assert(img@ =~= bytes@ + seq![0u8, 0u8, 0u8, 0u8, 0u8, 0u8]);
        }
        r
    }

    /// The 10 significant bytes of the value, in memory order.
    pub fn to_ne_bytes(&self) -> (r: [u8; 10])
        ensures
            r@ == self@.subrange(0, 10),
    {
        let (l, h) = (self.lo, self.hi);
        let r = [
            get_byte(l, 0), get_byte(l, 1), get_byte(l, 2), get_byte(l, 3), get_byte(l, 4),
            get_byte(l, 5), get_byte(l, 6), get_byte(l, 7), get_byte(h, 0), get_byte(h, 1),
        ];
        assert(r@ =~= self@.subrange(0, 10));
        r
    }
}

/// The 10 bytes that a value was built from are the bytes it gives back.
pub proof fn lemma_f80_bytes_round_trip(x: f80, b: Seq<u8>)
    requires
        b.len() == 10,
        x@ == b + seq![0u8, 0u8, 0u8, 0u8, 0u8, 0u8],
    ensures
        x@.subrange(0, 10) == b,
{
    assert(x@.subrange(0, 10) =~= b);
}

/// A 64-bit MMX register, held as its 8-byte image.
#[allow(non_camel_case_types)]
#[derive(Clone, Copy, Debug)]
pub struct u8x8 {
    value: u64,
}

impl u8x8 {
    /// The 8-byte memory image of the value.
    pub closed spec fn view(self) -> Seq<u8> {
        image64(self.value)
    }

    /// The value whose memory image is `b`.
    pub closed spec fn from_image(b: Seq<u8>) -> u8x8 {
        u8x8 { value: le64(b) }
    }

    fn from_image_exec(b: &[u8]) -> (r: u8x8)
        requires
            b@.len() == 8,
        ensures
            r == u8x8::from_image(b@),
    {
        u8x8 { value: read_le64(b) }
    }

    /// The image of a value is 8 bytes long and decodes back to the value.
    pub proof fn lemma_image(self)
        ensures
            self.view().len() == 8,
            u8x8::from_image(self.view()) == self,
    {
        lemma_le64_image(self.value);
    }

    /// Decoding an 8-byte image and taking the image back gives the same bytes.
    pub proof fn lemma_from_image(b: Seq<u8>)
        requires
            b.len() == 8,
        ensures
            u8x8::from_image(b).view() == b,
    {
        lemma_image64_le(b);
    }

    /// Builds a value from its 8 bytes.
    pub fn from_bytes(bytes: [u8; 8]) -> (r: u8x8)
        ensures
            r@ == bytes@,
    {
        let r = u8x8::from_image_exec(bytes.as_slice());
        proof {
            u8x8::lemma_from_image(bytes@);
        }
        r
    }

    /// The 8 bytes of the value, in memory order.
    pub fn to_ne_bytes(&self) -> (r: [u8; 8])
        ensures
            r@ == self@,
    {
        let v = self.value;
        let r = [
            get_byte(v, 0), get_byte(v, 1), get_byte(v, 2), get_byte(v, 3), get_byte(v, 4),
            get_byte(v, 5), get_byte(v, 6), get_byte(v, 7),
        ];
        assert(r@ =~= self@);
        r
    }
}

/// A 128-bit SSE register, held as its 16-byte image.
#[allow(non_camel_case_types)]
#[derive(Clone, Copy, Debug)]
pub struct u8x16 {
    lo: u64,
    hi: u64,
}

impl u8x16 {
    /// The 16-byte memory image of the value.
    pub closed spec fn view(self) -> Seq<u8> {
        pair_image(self.lo, self.hi)
    }

    /// The value whose memory image is `b`.
    pub closed spec fn from_image(b: Seq<u8>) -> u8x16 {
        u8x16 {
            lo: le64(b.subrange(0, 8)),
            hi: le64(b.subrange(8, 16)),
        }
    }

    fn from_image_exec(b: &[u8]) -> (r: u8x16)
        requires
            b@.len() == 16,
        ensures
            r == u8x16::from_image(b@),
    {
        let (lo, hi) = pair_from_image(b);
        u8x16 { lo, hi }
    }

    /// The image of a value is 16 bytes long and decodes back to the value.
    pub proof fn lemma_image(self)
        ensures
            self.view().len() == 16,
            u8x16::from_image(self.view()) == self,
    {
        lemma_le64_image(self.lo);
        lemma_le64_image(self.hi);
        assert(self.view().subrange(0, 8) =~= image64(self.lo));
        assert(self.view().subrange(8, 16) =~= image64(self.hi));
    }

    /// Decoding a 16-byte image and taking the image back gives the same bytes.
    pub proof fn lemma_from_image(b: Seq<u8>)
        requires
            b.len() == 16,
        ensures
            u8x16::from_image(b).view() == b,
    {
        lemma_image64_le(b.subrange(0, 8));
        lemma_image64_le(b.subrange(8, 16));
        assert(b =~= b.subrange(0, 8) + b.subrange(8, 16));
    }

    /// Builds a value from its 16 bytes.
    pub fn from_bytes(bytes: [u8; 16]) -> (r: u8x16)
        ensures
            r@ == bytes@,
    {
        let r = u8x16::from_image_exec(bytes.as_slice());
        proof {
            u8x16::lemma_from_image(bytes@);
        }
        r
    }

    /// The 16 bytes of the value, in memory order.
    pub fn to_ne_bytes(&self) -> (r: [u8; 16])
        ensures
            r@ == self@,
    {
        let (l, h) = (self.lo, self.hi);
        let r = [
            get_byte(l, 0), get_byte(l, 1), get_byte(l, 2), get_byte(l, 3), get_byte(l, 4),
            get_byte(l, 5), get_byte(l, 6), get_byte(l, 7), get_byte(h, 0), get_byte(h, 1),
            get_byte(h, 2), get_byte(h, 3), get_byte(h, 4), get_byte(h, 5), get_byte(h, 6),
            get_byte(h, 7),
        ];
        assert(r@ =~= self@);
        r
    }
}

/// A value read from or written to a register.
///
/// `F32` and `F64` carry the bit pattern of the floating-point value.
#[derive(Clone, Debug)]
pub enum RegisterValue {
    U8(u8),
    U16(u16),
    U32(u32),
    U64(u64),
    F32(u32),
    F64(u64),
    F80(f80),
    U8x8(u8x8),
    U8x16(u8x16),
}

impl RegisterValue {
    pub open spec fn spec_ty(self) -> RegisterType {
        match self {
            RegisterValue::U8(_) => RegisterType::U8,
            RegisterValue::U16(_) => RegisterType::U16,
            RegisterValue::U32(_) => RegisterType::U32,
            RegisterValue::U64(_) => RegisterType::U64,
            RegisterValue::F32(_) => RegisterType::F32,
            RegisterValue::F64(_) => RegisterType::F64,
            RegisterValue::F80(_) => RegisterType::F80,
            RegisterValue::U8x8(_) => RegisterType::U8x8,
            RegisterValue::U8x16(_) => RegisterType::U8x16,
        }
    }

    /// The memory image of the value.
    pub open spec fn image(self) -> Seq<u8> {
        match self {
            RegisterValue::U8(x) => seq![x],
            RegisterValue::U16(x) => image16(x),
            RegisterValue::U32(x) => image32(x),
            RegisterValue::U64(x) => image64(x),
            RegisterValue::F32(x) => image32(x),
            RegisterValue::F64(x) => image64(x),
            RegisterValue::F80(x) => x@,
            RegisterValue::U8x8(x) => x@,
            RegisterValue::U8x16(x) => x@,
        }
    }

    /// The type of the value.
    pub fn ty(&self) -> (r: RegisterType)
        ensures
            r == self.spec_ty(),
    {
        match self {
            RegisterValue::U8(_) => RegisterType::U8,
            RegisterValue::U16(_) => RegisterType::U16,
            RegisterValue::U32(_) => RegisterType::U32,
            RegisterValue::U64(_) => RegisterType::U64,
            RegisterValue::F32(_) => RegisterType::F32,
            RegisterValue::F64(_) => RegisterType::F64,
            RegisterValue::F80(_) => RegisterType::F80,
            RegisterValue::U8x8(_) => RegisterType::U8x8,
            RegisterValue::U8x16(_) => RegisterType::U8x16,
        }
    }

    /// The memory image of the value, as bytes.
    pub fn to_image(&self) -> (r: Vec<u8>)
        ensures
            r@ == self.image(),
    {
        let mut v: Vec<u8> = Vec::new();
        match self {
            RegisterValue::U8(x) => {
                v.push(*x);
            },
            RegisterValue::U16(x) => push_le(&mut v, *x as u64, 2),
            RegisterValue::U32(x) => push_le(&mut v, *x as u64, 4),
            RegisterValue::U64(x) => push_le(&mut v, *x, 8),
            RegisterValue::F32(x) => push_le(&mut v, *x as u64, 4),
            RegisterValue::F64(x) => push_le(&mut v, *x, 8),
            RegisterValue::F80(x) => {
                push_le(&mut v, x.lo, 8);
                push_le(&mut v, x.hi, 8);
            },
            RegisterValue::U8x8(x) => push_le(&mut v, x.value, 8),
            RegisterValue::U8x16(x) => {
                push_le(&mut v, x.lo, 8);
                push_le(&mut v, x.hi, 8);
            },
        }
        proof {
            match self {
                RegisterValue::U8(x) => assert(v@ =~= self.image()),
                RegisterValue::U16(x) => assert(v@ =~= self.image()),
                RegisterValue::U32(x) => assert(v@ =~= self.image()),
                RegisterValue::U64(x) => assert(v@ =~= self.image()),
                RegisterValue::F32(x) => assert(v@ =~= self.image()),
                RegisterValue::F64(x) => assert(v@ =~= self.image()),
                RegisterValue::F80(x) => assert(v@ =~= self.image()),
                RegisterValue::U8x8(x) => assert(v@ =~= self.image()),
                RegisterValue::U8x16(x) => assert(v@ =~= self.image()),
            }
        }
        v
    }

    /// Writes the value's memory image into `area` at byte `offset`.
    pub fn write(&self, area: &mut Vec<u8>, offset: usize)
        requires
            offset + self.spec_ty().spec_size() <= old(area)@.len(),
        ensures
            final(area)@ == old(area)@.subrange(0, offset as int) + self.image() + old(area)@.subrange(
                offset + self.spec_ty().spec_size(),
                old(area)@.len() as int,
            ),
    {
        proof {
            lemma_image_len(*self);
        }
        let img = self.to_image();
        let n = img.len();
        // The length is a `usize`, so the sums below, bounded by it, fit.
        let area_len = area.len();
        let ghost start = area@;
        let mut i: usize = 0;
        while i < n
            invariant
                n == img@.len(),
                area_len == start.len(),
                n == self.spec_ty().spec_size(),
                offset + n <= start.len(),
                area@.len() == start.len(),
                0 <= i <= n,
                forall|k: int| 0 <= k < offset ==> area@[k] == start[k],
                forall|k: int| offset + n <= k < start.len() ==> area@[k] == start[k],
                forall|k: int| offset <= k < offset + i ==> area@[k] == img@[k - offset],
                forall|k: int| offset + i <= k < offset + n ==> area@[k] == start[k],
            decreases n - i,
        {
            area.set(offset + i, img[i]);
            i = i + 1;
        }
        assert(area@ =~= start.subrange(0, offset as int) + self.image() + start.subrange(
            offset + self.spec_ty().spec_size(),
            start.len() as int,
        ));
    }
}

/// A register value of one type was given where another was expected.
#[derive(Debug)]
pub struct RegisterTypeError {
    pub expected: RegisterType,
    pub actual: RegisterType,
}

impl RegisterTypeError {
    /// The error's message, as `Display` shows it.
    pub open spec fn spec_message(self) -> Seq<char> {
        "expected register value of type "@ + self.expected.spec_name()
            + ", but found value of type "@ + self.actual.spec_name()
    }

    /// The error's message, as `Display` shows it.
    pub fn to_string(&self) -> (r: String)
        ensures
            r@ == self.spec_message(),
    {
        let mut s = String::from_str("expected register value of type ");
        let e = self.expected.to_string();
        s.append(e.as_str());
        s.append(", but found value of type ");
        let a = self.actual.to_string();
        s.append(a.as_str());
        s
    }
}

/// The image of a value has the size of its type.
pub proof fn lemma_image_len(v: RegisterValue)
    ensures
        v.image().len() == v.spec_ty().spec_size(),
{
    lemma_decode_image(v);
}

/// Decoding the memory image of a value gives the value back.
pub proof fn lemma_decode_image(v: RegisterValue)
    ensures
        v.image().len() == v.spec_ty().spec_size(),
        v.spec_ty().decode(v.image()) == v,
{
    match v {
        RegisterValue::U16(x) => lemma_le16_image(x),
        RegisterValue::U32(x) => lemma_le32_image(x),
        RegisterValue::U64(x) => lemma_le64_image(x),
        RegisterValue::F32(x) => lemma_le32_image(x),
        RegisterValue::F64(x) => lemma_le64_image(x),
        RegisterValue::U8(x) => {
            let img = v.image();
            assert(img == seq![x]);
            assert(img[0] == x);
            assert(v.spec_ty().decode(img) == RegisterValue::U8(img[0]));
        },
        RegisterValue::F80(x) => x.lemma_image(),
        RegisterValue::U8x8(x) => x.lemma_image(),
        RegisterValue::U8x16(x) => x.lemma_image(),
    }
}

/// Decoding bytes of a type's size gives a value of that type whose image is
/// those bytes.
pub proof fn lemma_image_decode(ty: RegisterType, b: Seq<u8>)
    requires
        b.len() == ty.spec_size(),
    ensures
        ty.decode(b).spec_ty() == ty,
        ty.decode(b).image() == b,
{
    match ty {
        RegisterType::U16 => lemma_image16_le(b),
        RegisterType::U32 => lemma_image32_le(b),
        RegisterType::U64 => lemma_image64_le(b),
        RegisterType::F32 => lemma_image32_le(b),
        RegisterType::F64 => lemma_image64_le(b),
        RegisterType::U8 => {
            assert(b =~= seq![b[0]]);
        },
        RegisterType::F80 => f80::lemma_from_image(b),
        RegisterType::U8x8 => u8x8::lemma_from_image(b),
        RegisterType::U8x16 => u8x16::lemma_from_image(b),
    }
}

} // verus!
