use vstd::prelude::*;

verus! {

/// Bit pattern of the `f32` value `0.0`.
pub const ZERO_BITS: u32 = 0;

/// Bit pattern of the `f32` value `1.0`.
pub const ONE_BITS: u32 = 0x3f80_0000;

/// Bit pattern of `f32::MAX`.
pub const MAX_BITS: u32 = 0x7f7f_ffff;

/// Bit pattern of `f32::MIN` (the most negative finite `f32`).
pub const MIN_BITS: u32 = 0xff7f_ffff;

/// Three `f32` components, each held as its IEEE-754 bit pattern.
#[derive(PartialEq, Eq, Structural, Clone, Copy, Debug)]
pub struct F32x3 {
    pub x: u32,
    pub y: u32,
    pub z: u32,
}

/// Four `f32` components, each held as its IEEE-754 bit pattern.
#[derive(PartialEq, Eq, Structural, Clone, Copy, Debug)]
pub struct F32x4 {
    pub x: u32,
    pub y: u32,
    pub z: u32,
    pub w: u32,
}

impl F32x3 {
    pub fn new(x: u32, y: u32, z: u32) -> (r: Self)
        ensures
            r == (F32x3 { x, y, z }),
    {
        F32x3 { x, y, z }
    }
}

impl F32x4 {
    pub fn new(x: u32, y: u32, z: u32, w: u32) -> (r: Self)
        ensures
            r == (F32x4 { x, y, z, w }),
    {
        F32x4 { x, y, z, w }
    }
}

/// The four bytes of `w`, least significant first.
pub open spec fn le_u32(w: u32) -> Seq<u8> {
    seq![
        (w & 0xff) as u8,
        ((w >> 8u32) & 0xff) as u8,
        ((w >> 16u32) & 0xff) as u8,
        ((w >> 24u32) & 0xff) as u8,
    ]
}

/// The words of `ws` in order, each as four little-endian bytes.
pub open spec fn le_words(ws: Seq<u32>) -> Seq<u8>
    decreases ws.len(),
{
    if ws.len() == 0 {
        seq![]
    } else {
        le_words(ws.drop_last()) + le_u32(ws.last())
    }
}

/// Each word takes exactly four bytes.
pub proof fn lemma_le_words_len(ws: Seq<u32>)
    ensures
        le_words(ws).len() == 4 * ws.len(),
    decreases ws.len(),
{
    if ws.len() > 0 {
        lemma_le_words_len(ws.drop_last());
    }
}

/// Appends the little-endian bytes of `w`.
pub fn push_u32(out: &mut Vec<u8>, w: u32)
    ensures
        final(out)@ == old(out)@ + le_u32(w),
{
    out.push((w & 0xff) as u8);
    out.push(((w >> 8u32) & 0xff) as u8);
    out.push(((w >> 16u32) & 0xff) as u8);
    out.push(((w >> 24u32) & 0xff) as u8);
    assert(out@ =~= old(out)@ + le_u32(w));
}

/// Appends the little-endian bytes of every word of `ws`, in order.
pub fn push_words(out: &mut Vec<u8>, ws: &Vec<u32>)
    ensures
        final(out)@ == old(out)@ + le_words(ws@),
{
    let ghost start = out@;
    let mut i: usize = 0;
    while i < ws.len()
        invariant
            0 <= i <= ws@.len(),
            out@ == start + le_words(ws@.subrange(0, i as int)),
        decreases ws@.len() - i,
    {
        let ghost before = out@;
        push_u32(out, ws[i]);
        proof {
            let pre = ws@.subrange(0, i as int);
            let next = ws@.subrange(0, i + 1);
            assert(next.drop_last() =~= pre);
            assert(next.last() == ws@[i as int]);
            assert(out@ =~= start + le_words(next));
        }
        i = i + 1;
    }
    assert(ws@.subrange(0, ws@.len() as int) =~= ws@);
}

/// The generic per-shape GPU record: colour, kind-local index, kind tag,
/// packed flags, one word of padding and the screen-space bounding box
/// (min x, min y, max x, max y).  Twelve words, 48 bytes.
#[derive(PartialEq, Eq, Structural, Clone, Copy, Debug)]
pub struct ShapeData {
    pub color: F32x4,
    pub index: u32,
    pub shape_type: u32,
    pub flags: u32,
    pub bounding_box: F32x4,
}

/// A sphere's GPU record: centre and radius.  Four words, 16 bytes.
#[derive(PartialEq, Eq, Structural, Clone, Copy, Debug)]
pub struct SphereData {
    pub model: F32x4,
}

/// A cube's GPU record: centre and half-extents, each padded to four words,
/// then the orientation quaternion (vector part first).  Twelve words, 48 bytes.
#[derive(PartialEq, Eq, Structural, Clone, Copy, Debug)]
pub struct CubeData {
    pub model: F32x3,
    pub size: F32x3,
    pub rot: F32x4,
}

/// A union's GPU record: both operands and its own index.  Three words, 12 bytes.
#[derive(PartialEq, Eq, Structural, Clone, Copy, Debug)]
pub struct UnionData {
    pub left: u32,
    pub right: u32,
    pub index: u32,
}

impl ShapeData {
    pub open spec fn spec_words(&self) -> Seq<u32> {
        seq![
            self.color.x, self.color.y, self.color.z, self.color.w,
            self.index, self.shape_type, self.flags, ZERO_BITS,
            self.bounding_box.x, self.bounding_box.y, self.bounding_box.z, self.bounding_box.w,
        ]
    }

    pub open spec fn bytes(&self) -> Seq<u8> {
        le_words(self.spec_words())
    }

    /// The record that stands in for an empty shape list.
    pub open spec fn sentinel() -> ShapeData {
        ShapeData {
            color: F32x4 { x: ZERO_BITS, y: ZERO_BITS, z: ZERO_BITS, w: ZERO_BITS },
            index: u32::MAX,
            shape_type: u32::MAX,
            flags: 0,
            bounding_box: F32x4 { x: MIN_BITS, y: MIN_BITS, z: MAX_BITS, w: MAX_BITS },
        }
    }

    pub fn words(&self) -> (r: Vec<u32>)
        ensures
            r@ == self.spec_words(),
    {
        let mut r: Vec<u32> = Vec::new();
        r.push(self.color.x);
        r.push(self.color.y);
        r.push(self.color.z);
        r.push(self.color.w);
        r.push(self.index);
        r.push(self.shape_type);
        r.push(self.flags);
        r.push(ZERO_BITS);
        r.push(self.bounding_box.x);
        r.push(self.bounding_box.y);
        r.push(self.bounding_box.z);
        r.push(self.bounding_box.w);
        assert(r@ =~= self.spec_words());
        r
    }

    /// Appends this record's 48 bytes.
    pub fn write_to(&self, out: &mut Vec<u8>)
        ensures
            final(out)@ == old(out)@ + self.bytes(),
    {
        let ws = self.words();
        push_words(out, &ws);
    }
}

impl Default for ShapeData {
    fn default() -> (r: Self)
        ensures
            r == ShapeData::sentinel(),
    {
        ShapeData {
            color: F32x4 { x: ZERO_BITS, y: ZERO_BITS, z: ZERO_BITS, w: ZERO_BITS },
            index: u32::MAX,
            shape_type: u32::MAX,
            flags: 0,
            bounding_box: F32x4 { x: MIN_BITS, y: MIN_BITS, z: MAX_BITS, w: MAX_BITS },
        }
    }
}

impl SphereData {
    pub open spec fn spec_words(&self) -> Seq<u32> {
        seq![self.model.x, self.model.y, self.model.z, self.model.w]
    }

    pub open spec fn bytes(&self) -> Seq<u8> {
        le_words(self.spec_words())
    }

    pub fn words(&self) -> (r: Vec<u32>)
        ensures
            r@ == self.spec_words(),
    {
        let mut r: Vec<u32> = Vec::new();
        r.push(self.model.x);
        r.push(self.model.y);
        r.push(self.model.z);
        r.push(self.model.w);
        assert(r@ =~= self.spec_words());
        r
    }

    /// Appends this record's 16 bytes.
    pub fn write_to(&self, out: &mut Vec<u8>)
        ensures
            final(out)@ == old(out)@ + self.bytes(),
    {
        let ws = self.words();
        push_words(out, &ws);
    }
}

impl CubeData {
    pub open spec fn spec_words(&self) -> Seq<u32> {
        seq![
            self.model.x, self.model.y, self.model.z, ZERO_BITS,
            self.size.x, self.size.y, self.size.z, ZERO_BITS,
            self.rot.x, self.rot.y, self.rot.z, self.rot.w,
        ]
    }

    pub open spec fn bytes(&self) -> Seq<u8> {
        le_words(self.spec_words())
    }

    pub fn words(&self) -> (r: Vec<u32>)
        ensures
            r@ == self.spec_words(),
    {
        let mut r: Vec<u32> = Vec::new();
        r.push(self.model.x);
        r.push(self.model.y);
        r.push(self.model.z);
        r.push(ZERO_BITS);
        r.push(self.size.x);
        r.push(self.size.y);
        r.push(self.size.z);
        r.push(ZERO_BITS);
        r.push(self.rot.x);
        r.push(self.rot.y);
        r.push(self.rot.z);
        r.push(self.rot.w);
        assert(r@ =~= self.spec_words());
        r
    }

    /// Appends this record's 48 bytes.
    pub fn write_to(&self, out: &mut Vec<u8>)
        ensures
            final(out)@ == old(out)@ + self.bytes(),
    {
        let ws = self.words();
        push_words(out, &ws);
    }
}

impl UnionData {
    pub open spec fn spec_words(&self) -> Seq<u32> {
        seq![self.left, self.right, self.index]
    }

    pub open spec fn bytes(&self) -> Seq<u8> {
        le_words(self.spec_words())
    }

    pub fn words(&self) -> (r: Vec<u32>)
        ensures
            r@ == self.spec_words(),
    {
        let mut r: Vec<u32> = Vec::new();
        r.push(self.left);
        r.push(self.right);
        r.push(self.index);
        assert(r@ =~= self.spec_words());
        r
    }

    /// Appends this record's 12 bytes.
    pub fn write_to(&self, out: &mut Vec<u8>)
        ensures
            final(out)@ == old(out)@ + self.bytes(),
    {
        let ws = self.words();
        push_words(out, &ws);
    }
}

} // verus!
