use vstd::prelude::*;

use crate::flags::{Flag, Flags};
use crate::layout::{
    CubeData, F32x3, F32x4, ShapeData, SphereData, UnionData, ONE_BITS, ZERO_BITS,
};

verus! {

/// The kinds of shape the renderer knows, with the tag each carries in a
/// `ShapeData` record.
#[derive(PartialEq, Eq, Structural, Clone, Copy, Debug)]
pub enum ShapeKind {
    Sphere,
    Cube,
    Union,
}

impl ShapeKind {
    pub open spec fn tag(self) -> u32 {
        match self {
            ShapeKind::Sphere => 0,
            ShapeKind::Cube => 1,
            ShapeKind::Union => 2,
        }
    }

    pub fn shape_type(self) -> (r: u32)
        ensures
            r == self.tag(),
    {
        match self {
            ShapeKind::Sphere => 0,
            ShapeKind::Cube => 1,
            ShapeKind::Union => 2,
        }
    }
}

//  Sphere
/// A sphere: centre, radius, colour, kind-local index and flags.
#[derive(Clone, Copy, Debug)]
pub struct Sphere {
    pos: F32x3,
    radius: u32,
    color: F32x3,
    index: u32,
    flags: Flags,
}

impl Sphere {
    pub closed spec fn center(&self) -> F32x3 {
        self.pos
    }

    pub closed spec fn radius(&self) -> u32 {
        self.radius
    }

    pub closed spec fn color(&self) -> F32x3 {
        self.color
    }

    pub closed spec fn index(&self) -> u32 {
        self.index
    }

    pub closed spec fn flags(&self) -> Flags {
        self.flags
    }

    /// This sphere with its flags replaced.
    pub closed spec fn with_flags(self, flags: Flags) -> Sphere {
        Sphere { flags, ..self }
    }

    /// This sphere moved to `pos`.
    pub closed spec fn with_pos(self, pos: F32x3) -> Sphere {
        Sphere { pos, ..self }
    }

    pub open spec fn data(&self) -> SphereData {
        SphereData {
            model: F32x4 {
                x: self.center().x,
                y: self.center().y,
                z: self.center().z,
                w: self.radius(),
            },
        }
    }

    pub open spec fn is_placeholder(&self) -> bool {
        &&& self.center() == (F32x3 { x: ZERO_BITS, y: ZERO_BITS, z: ZERO_BITS })
        &&& self.radius() == ONE_BITS
        &&& self.color() == (F32x3 { x: ONE_BITS, y: ONE_BITS, z: ONE_BITS })
        &&& self.index() == u32::MAX
        &&& self.flags().is_enabled()
    }

    pub fn sphere_data(&self) -> (r: SphereData)
        ensures
            r == self.data(),
    {
        SphereData {
            model: F32x4 { x: self.pos.x, y: self.pos.y, z: self.pos.z, w: self.radius },
        }
    }

    pub fn get_center(&self) -> (r: F32x3)
        ensures
            r == self.center(),
    {
        self.pos
    }

    pub fn get_radius(&self) -> (r: u32)
        ensures
            r == self.radius(),
    {
        self.radius
    }

    pub fn get_color(&self) -> (r: F32x3)
        ensures
            r == self.color(),
    {
        self.color
    }

    pub fn get_index(&self) -> (r: u32)
        ensures
            r == self.index(),
    {
        self.index
    }

    pub fn get_flags(&self) -> (r: &Flags)
        ensures
            *r == self.flags(),
    {
        &self.flags
    }

    pub fn get_flag(&self, flag: Flag) -> (r: bool)
        ensures
            r == self.flags().flag(flag),
    {
        self.flags.get_flag(flag)
    }

    pub fn set_flag(&mut self, flag: Flag, value: bool)
        ensures
            *final(self) == old(self).with_flags(old(self).flags().with_flag(flag, value)),
            final(self).flags().flag(flag) == value,
            final(self).index() == old(self).index(),
    {
        self.flags.set_flag(flag, value);
    }

    pub fn set_flags(&mut self, flags: Flags)
        ensures
            *final(self) == old(self).with_flags(flags),
            final(self).flags() == flags,
            final(self).index() == old(self).index(),
    {
        self.flags.set(flags);
    }

    pub fn set_pos(&mut self, pos: F32x3)
        ensures
            *final(self) == old(self).with_pos(pos),
            final(self).center() == pos,
            final(self).index() == old(self).index(),
    {
        self.pos = pos;
    }
}

impl Default for Sphere {
    fn default() -> (r: Self)
        ensures
            r.is_placeholder(),
    {
        Sphere {
            pos: F32x3 { x: ZERO_BITS, y: ZERO_BITS, z: ZERO_BITS },
            radius: ONE_BITS,
            color: F32x3 { x: ONE_BITS, y: ONE_BITS, z: ONE_BITS },
            index: u32::MAX,
            flags: Flags::enabled(),
        }
    }
}

//  Cube
/// A box: centre, half-extents, orientation quaternion (vector part in
/// `x`, `y`, `z`, scalar part in `w`), colour, kind-local index and flags.
#[derive(Clone, Copy, Debug)]
pub struct Cube {
    pos: F32x3,
    bounds: F32x3,
    rot: F32x4,
    color: F32x3,
    index: u32,
    flags: Flags,
}

/// The identity rotation, as a quaternion with its scalar part last.
pub open spec fn identity_rotation() -> F32x4 {
    F32x4 { x: ZERO_BITS, y: ZERO_BITS, z: ZERO_BITS, w: ONE_BITS }
}

impl Cube {
    pub closed spec fn center(&self) -> F32x3 {
        self.pos
    }

    pub closed spec fn bounds(&self) -> F32x3 {
        self.bounds
    }

    pub closed spec fn rotation(&self) -> F32x4 {
        self.rot
    }

    pub closed spec fn color(&self) -> F32x3 {
        self.color
    }

    pub closed spec fn index(&self) -> u32 {
        self.index
    }

    pub closed spec fn flags(&self) -> Flags {
        self.flags
    }

    pub closed spec fn with_flags(self, flags: Flags) -> Cube {
        Cube { flags, ..self }
    }

    pub closed spec fn with_pos(self, pos: F32x3) -> Cube {
        Cube { pos, ..self }
    }

    pub closed spec fn with_bounds(self, bounds: F32x3) -> Cube {
        Cube { bounds, ..self }
    }

    pub closed spec fn with_rotation(self, rot: F32x4) -> Cube {
        Cube { rot, ..self }
    }

    pub open spec fn data(&self) -> CubeData {
        CubeData { model: self.center(), size: self.bounds(), rot: self.rotation() }
    }

    pub open spec fn is_placeholder(&self) -> bool {
        &&& self.center() == (F32x3 { x: ZERO_BITS, y: ZERO_BITS, z: ZERO_BITS })
        &&& self.bounds() == (F32x3 { x: ONE_BITS, y: ONE_BITS, z: ONE_BITS })
        &&& self.rotation() == identity_rotation()
        &&& self.color() == (F32x3 { x: ZERO_BITS, y: ZERO_BITS, z: ZERO_BITS })
        &&& self.index() == u32::MAX
        &&& self.flags().is_enabled()
    }

    pub fn cube_data(&self) -> (r: CubeData)
        ensures
            r == self.data(),
    {
        CubeData { model: self.pos, size: self.bounds, rot: self.rot }
    }

    pub fn get_pos(&self) -> (r: F32x3)
        ensures
            r == self.center(),
    {
        self.pos
    }

    pub fn get_bounds(&self) -> (r: F32x3)
        ensures
            r == self.bounds(),
    {
        self.bounds
    }

    pub fn get_rotation(&self) -> (r: F32x4)
        ensures
            r == self.rotation(),
    {
        self.rot
    }

    pub fn get_color(&self) -> (r: F32x3)
        ensures
            r == self.color(),
    {
        self.color
    }

    pub fn get_index(&self) -> (r: u32)
        ensures
            r == self.index(),
    {
        self.index
    }

    pub fn get_flags(&self) -> (r: &Flags)
        ensures
            *r == self.flags(),
    {
        &self.flags
    }

    pub fn get_flag(&self, flag: Flag) -> (r: bool)
        ensures
            r == self.flags().flag(flag),
    {
        self.flags.get_flag(flag)
    }

    pub fn set_flag(&mut self, flag: Flag, value: bool)
        ensures
            *final(self) == old(self).with_flags(old(self).flags().with_flag(flag, value)),
            final(self).flags().flag(flag) == value,
            final(self).index() == old(self).index(),
    {
        self.flags.set_flag(flag, value);
    }

    pub fn set_flags(&mut self, flags: Flags)
        ensures
            *final(self) == old(self).with_flags(flags),
            final(self).flags() == flags,
            final(self).index() == old(self).index(),
    {
        self.flags.set(flags);
    }

    pub fn set_pos(&mut self, pos: F32x3)
        ensures
            *final(self) == old(self).with_pos(pos),
            final(self).center() == pos,
            final(self).index() == old(self).index(),
    {
        self.pos = pos;
    }

    pub fn set_bounds(&mut self, bounds: F32x3)
        ensures
            *final(self) == old(self).with_bounds(bounds),
            final(self).bounds() == bounds,
            final(self).index() == old(self).index(),
    {
        self.bounds = bounds;
    }

    pub fn set_rotation(&mut self, rot: F32x4)
        ensures
            *final(self) == old(self).with_rotation(rot),
            final(self).rotation() == rot,
            final(self).index() == old(self).index(),
    {
        self.rot = rot;
    }
}

impl Default for Cube {
    fn default() -> (r: Self)
        ensures
            r.is_placeholder(),
    {
        Cube {
            pos: F32x3 { x: ZERO_BITS, y: ZERO_BITS, z: ZERO_BITS },
            bounds: F32x3 { x: ONE_BITS, y: ONE_BITS, z: ONE_BITS },
            rot: F32x4 { x: ZERO_BITS, y: ZERO_BITS, z: ZERO_BITS, w: ONE_BITS },
            color: F32x3 { x: ZERO_BITS, y: ZERO_BITS, z: ZERO_BITS },
            index: u32::MAX,
            flags: Flags::enabled(),
        }
    }
}

//  Union
/// A CSG union of two shapes, named by their positions in the manager's
/// storage, with its own kind-local index and flags.
#[derive(Clone, Copy, Debug)]
pub struct Union {
    left: u32,
    right: u32,
    index: u32,
    flags: Flags,
}

impl Union {
    pub closed spec fn left(&self) -> u32 {
        self.left
    }

    pub closed spec fn right(&self) -> u32 {
        self.right
    }

    pub closed spec fn index(&self) -> u32 {
        self.index
    }

    pub closed spec fn flags(&self) -> Flags {
        self.flags
    }

    pub closed spec fn with_flags(self, flags: Flags) -> Union {
        Union { flags, ..self }
    }

    pub open spec fn data(&self) -> UnionData {
        UnionData { left: self.left(), right: self.right(), index: self.index() }
    }

    pub fn union_data(&self) -> (r: UnionData)
        ensures
            r == self.data(),
    {
        UnionData { left: self.left, right: self.right, index: self.index }
    }

    pub fn get_left(&self) -> (r: u32)
        ensures
            r == self.left(),
    {
        self.left
    }

    pub fn get_right(&self) -> (r: u32)
        ensures
            r == self.right(),
    {
        self.right
    }

    pub fn get_index(&self) -> (r: u32)
        ensures
            r == self.index(),
    {
        self.index
    }

    pub fn get_flags(&self) -> (r: &Flags)
        ensures
            *r == self.flags(),
    {
        &self.flags
    }

    pub fn get_flag(&self, flag: Flag) -> (r: bool)
        ensures
            r == self.flags().flag(flag),
    {
        self.flags.get_flag(flag)
    }

    pub fn set_flag(&mut self, flag: Flag, value: bool)
        ensures
            *final(self) == old(self).with_flags(old(self).flags().with_flag(flag, value)),
            final(self).flags().flag(flag) == value,
            final(self).index() == old(self).index(),
    {
        self.flags.set_flag(flag, value);
    }

    pub fn set_flags(&mut self, flags: Flags)
        ensures
            *final(self) == old(self).with_flags(flags),
            final(self).flags() == flags,
            final(self).index() == old(self).index(),
    {
        self.flags.set(flags);
    }
}

//  Shape
/// Any shape the manager stores.
#[derive(Clone, Copy, Debug)]
pub enum Shape {
    Sphere(Sphere),
    Cube(Cube),
    Union(Union),
}

impl Shape {
    pub open spec fn kind(&self) -> ShapeKind {
        match self {
            Shape::Sphere(_) => ShapeKind::Sphere,
            Shape::Cube(_) => ShapeKind::Cube,
            Shape::Union(_) => ShapeKind::Union,
        }
    }

    pub open spec fn index(&self) -> u32 {
        match self {
            Shape::Sphere(s) => s.index(),
            Shape::Cube(c) => c.index(),
            Shape::Union(u) => u.index(),
        }
    }

    pub open spec fn flags(&self) -> Flags {
        match self {
            Shape::Sphere(s) => s.flags(),
            Shape::Cube(c) => c.flags(),
            Shape::Union(u) => u.flags(),
        }
    }

    pub open spec fn with_flags(self, flags: Flags) -> Shape {
        match self {
            Shape::Sphere(s) => Shape::Sphere(s.with_flags(flags)),
            Shape::Cube(c) => Shape::Cube(c.with_flags(flags)),
            Shape::Union(u) => Shape::Union(u.with_flags(flags)),
        }
    }

    /// This shape with one flag set to `value`.
    pub open spec fn with_flag(self, flag: Flag, value: bool) -> Shape {
        self.with_flags(self.flags().with_flag(flag, value))
    }

    /// The colour as it goes to the GPU: RGB and a zero fourth component;
    /// all zero for a union.
    pub open spec fn color4(&self) -> F32x4 {
        match self {
            Shape::Sphere(s) => F32x4 { x: s.color().x, y: s.color().y, z: s.color().z, w: ZERO_BITS },
            Shape::Cube(c) => F32x4 { x: c.color().x, y: c.color().y, z: c.color().z, w: ZERO_BITS },
            Shape::Union(_) => F32x4 { x: ZERO_BITS, y: ZERO_BITS, z: ZERO_BITS, w: ZERO_BITS },
        }
    }

    /// The generic record of this shape, given its screen-space box.
    pub open spec fn data(&self, bounding_box: F32x4) -> ShapeData {
        ShapeData {
            color: self.color4(),
            index: self.index(),
            shape_type: self.kind().tag(),
            flags: self.flags().bits(),
            bounding_box,
        }
    }

    pub fn shape_kind(&self) -> (r: ShapeKind)
        ensures
            r == self.kind(),
    {
        match self {
            Shape::Sphere(_) => ShapeKind::Sphere,
            Shape::Cube(_) => ShapeKind::Cube,
            Shape::Union(_) => ShapeKind::Union,
        }
    }

    pub fn get_index(&self) -> (r: u32)
        ensures
            r == self.index(),
    {
        match self {
            Shape::Sphere(s) => s.get_index(),
            Shape::Cube(c) => c.get_index(),
            Shape::Union(u) => u.get_index(),
        }
    }

    pub fn get_flags(&self) -> (r: &Flags)
        ensures
            *r == self.flags(),
    {
        match self {
            Shape::Sphere(s) => s.get_flags(),
            Shape::Cube(c) => c.get_flags(),
            Shape::Union(u) => u.get_flags(),
        }
    }

    pub fn get_flag(&self, flag: Flag) -> (r: bool)
        ensures
            r == self.flags().flag(flag),
    {
        match self {
            Shape::Sphere(s) => s.get_flag(flag),
            Shape::Cube(c) => c.get_flag(flag),
            Shape::Union(u) => u.get_flag(flag),
        }
    }

    pub fn set_flag(&mut self, flag: Flag, value: bool)
        ensures
            *final(self) == old(self).with_flag(flag, value),
            final(self).flags().flag(flag) == value,
            final(self).kind() == old(self).kind(),
            final(self).index() == old(self).index(),
    {
        match self {
            Shape::Sphere(s) => s.set_flag(flag, value),
            Shape::Cube(c) => c.set_flag(flag, value),
            Shape::Union(u) => u.set_flag(flag, value),
        }
    }

    pub fn set_flags(&mut self, flags: Flags)
        ensures
            *final(self) == old(self).with_flags(flags),
            final(self).flags() == flags,
            final(self).kind() == old(self).kind(),
            final(self).index() == old(self).index(),
    {
        match self {
            Shape::Sphere(s) => s.set_flags(flags),
            Shape::Cube(c) => c.set_flags(flags),
            Shape::Union(u) => u.set_flags(flags),
        }
    }

    /// Moves a sphere or a cube; a union has no position of its own and
    /// stays as it is.
    pub fn set_pos(&mut self, pos: F32x3)
        ensures
            *final(self) == match *old(self) {
                Shape::Sphere(s) => Shape::Sphere(s.with_pos(pos)),
                Shape::Cube(c) => Shape::Cube(c.with_pos(pos)),
                Shape::Union(u) => Shape::Union(u),
            },
            final(self).kind() == old(self).kind(),
            final(self).index() == old(self).index(),
    {
        match self {
            Shape::Sphere(s) => s.set_pos(pos),
            Shape::Cube(c) => c.set_pos(pos),
            Shape::Union(_) => {},
        }
    }

    /// Sets a cube's orientation; spheres are rotation-invariant and unions
    /// have no orientation, so both stay as they are.
    pub fn set_rotation(&mut self, rot: F32x4)
        ensures
            *final(self) == match *old(self) {
                Shape::Cube(c) => Shape::Cube(c.with_rotation(rot)),
                other => other,
            },
            final(self).kind() == old(self).kind(),
            final(self).index() == old(self).index(),
    {
        match self {
            Shape::Cube(c) => c.set_rotation(rot),
            _ => {},
        }
    }

    /// The generic record, given the screen-space box computed for it.
    pub fn shape_data(&self, bounding_box: F32x4) -> (r: ShapeData)
        ensures
            r == self.data(bounding_box),
    {
        let (color, index, kind, flags) = match self {
            Shape::Sphere(s) => (
                F32x4 { x: s.color.x, y: s.color.y, z: s.color.z, w: ZERO_BITS },
                s.index,
                ShapeKind::Sphere,
                s.flags.as_u32(),
            ),
            Shape::Cube(c) => (
                F32x4 { x: c.color.x, y: c.color.y, z: c.color.z, w: ZERO_BITS },
                c.index,
                ShapeKind::Cube,
                c.flags.as_u32(),
            ),
            Shape::Union(u) => (
                F32x4 { x: ZERO_BITS, y: ZERO_BITS, z: ZERO_BITS, w: ZERO_BITS },
                u.index,
                ShapeKind::Union,
                u.flags.as_u32(),
            ),
        };
        ShapeData { color, index, shape_type: kind.shape_type(), flags, bounding_box }
    }
}

//  ShapeManager
/// Object counts for the shader's per-frame uniform block.
#[derive(PartialEq, Eq, Structural, Clone, Copy, Debug)]
pub struct ObjectCounts {
    pub shape_count: u32,
    pub sphere_count: u32,
    pub cube_count: u32,
}

/// `slots` is the index table of kind `k` over `shapes`: entry `j` is the
/// storage position of the kind-`k` shape whose kind-local index is `j`,
/// every kind-`k` shape has an entry, and entries follow storage order.
pub open spec fn index_table_ok(shapes: Seq<Shape>, slots: Seq<u32>, k: ShapeKind) -> bool {
    &&& slots.len() <= shapes.len()
    &&& forall|j: int|
        0 <= j < slots.len() ==> {
            &&& (#[trigger] slots[j] as int) < shapes.len()
            &&& shapes[slots[j] as int].kind() == k
            &&& shapes[slots[j] as int].index() == j
        }
    &&& forall|i: int|
        0 <= i < shapes.len() && (#[trigger] shapes[i]).kind() == k ==> {
            &&& (shapes[i].index() as int) < slots.len()
            &&& slots[shapes[i].index() as int] == i
        }
    &&& forall|a: int, b: int| 0 <= a < b < slots.len() ==> #[trigger] slots[a] < #[trigger] slots[b]
}

/// Replacing a shape by one of the same kind and kind-local index keeps
/// every index table valid.
pub proof fn lemma_index_table_edit(
    shapes: Seq<Shape>,
    slots: Seq<u32>,
    k: ShapeKind,
    p: int,
    s: Shape,
)
    requires
        index_table_ok(shapes, slots, k),
        0 <= p < shapes.len(),
        s.kind() == shapes[p].kind(),
        s.index() == shapes[p].index(),
    ensures
        index_table_ok(shapes.update(p, s), slots, k),
{
    let t = shapes.update(p, s);
    assert forall|i: int| 0 <= i < t.len() && (#[trigger] t[i]).kind() == k implies {
        &&& (t[i].index() as int) < slots.len()
        &&& slots[t[i].index() as int] == i
    } by {
        assert(shapes[i].kind() == k);
    }
}

/// Appending a shape of another kind keeps the table of kind `k` valid.
proof fn lemma_index_table_push_other(shapes: Seq<Shape>, slots: Seq<u32>, k: ShapeKind, s: Shape)
    requires
        index_table_ok(shapes, slots, k),
        s.kind() != k,
    ensures
        index_table_ok(shapes.push(s), slots, k),
{
    let t = shapes.push(s);
    assert forall|i: int| 0 <= i < t.len() && (#[trigger] t[i]).kind() == k implies {
        &&& (t[i].index() as int) < slots.len()
        &&& slots[t[i].index() as int] == i
    } by {
        assert(i < shapes.len());
        assert(shapes[i] == t[i]);
    }
    assert forall|j: int| 0 <= j < slots.len() implies {
        &&& (#[trigger] slots[j] as int) < t.len()
        &&& t[slots[j] as int].kind() == k
        &&& t[slots[j] as int].index() == j
    } by {
        assert(t[slots[j] as int] == shapes[slots[j] as int]);
    }
}

/// Appending a shape of kind `k` whose kind-local index is the table's
/// length, and recording its position, keeps the table valid.
proof fn lemma_index_table_push_same(shapes: Seq<Shape>, slots: Seq<u32>, k: ShapeKind, s: Shape)
    requires
        index_table_ok(shapes, slots, k),
        shapes.len() <= u32::MAX,
        s.kind() == k,
        s.index() == slots.len(),
    ensures
        index_table_ok(shapes.push(s), slots.push(shapes.len() as u32), k),
{
    let t = shapes.push(s);
    let u = slots.push(shapes.len() as u32);
    assert forall|i: int| 0 <= i < t.len() && (#[trigger] t[i]).kind() == k implies {
        &&& (t[i].index() as int) < u.len()
        &&& u[t[i].index() as int] == i
    } by {
        if i < shapes.len() {
            assert(shapes[i] == t[i]);
        }
    }
    assert forall|j: int| 0 <= j < u.len() implies {
        &&& (#[trigger] u[j] as int) < t.len()
        &&& t[u[j] as int].kind() == k
        &&& t[u[j] as int].index() == j
    } by {
        if j < slots.len() {
            assert(u[j] == slots[j]);
            assert(t[slots[j] as int] == shapes[slots[j] as int]);
        }
    }
    assert forall|a: int, b: int| 0 <= a < b < u.len() implies #[trigger] u[a] < #[trigger] u[b] by {
        if b < slots.len() {
            assert(u[a] == slots[a] && u[b] == slots[b]);
        } else {
            assert(u[a] == slots[a]);
        }
    }
}

/// `shapes` with the shapes at positions `a` and `b` disabled.
pub open spec fn with_operands_disabled(shapes: Seq<Shape>, a: int, b: int) -> Seq<Shape> {
    let first = shapes.update(a, shapes[a].with_flag(Flag::Enabled, false));
    first.update(b, first[b].with_flag(Flag::Enabled, false))
}

/// The generic records of the first `n` shapes, each with its box from `boxes`.
pub open spec fn shape_records(shapes: Seq<Shape>, boxes: Seq<F32x4>, n: nat) -> Seq<u8>
    decreases n,
{
    if n == 0 {
        seq![]
    } else {
        shape_records(shapes, boxes, (n - 1) as nat) + shapes[n - 1].data(boxes[n - 1]).bytes()
    }
}

/// The sphere records of the spheres among the first `n` shapes, in storage order.
pub open spec fn sphere_records(shapes: Seq<Shape>, n: nat) -> Seq<u8>
    decreases n,
{
    if n == 0 {
        seq![]
    } else {
        sphere_records(shapes, (n - 1) as nat) + match shapes[n - 1] {
            Shape::Sphere(s) => s.data().bytes(),
            _ => seq![],
        }
    }
}

/// The cube records of the cubes among the first `n` shapes, in storage order.
pub open spec fn cube_records(shapes: Seq<Shape>, n: nat) -> Seq<u8>
    decreases n,
{
    if n == 0 {
        seq![]
    } else {
        cube_records(shapes, (n - 1) as nat) + match shapes[n - 1] {
            Shape::Cube(c) => c.data().bytes(),
            _ => seq![],
        }
    }
}

/// The sphere record sent when there is no sphere.
pub open spec fn placeholder_sphere_data() -> SphereData {
    SphereData { model: F32x4 { x: ZERO_BITS, y: ZERO_BITS, z: ZERO_BITS, w: ONE_BITS } }
}

/// The cube record sent when there is no cube.
pub open spec fn placeholder_cube_data() -> CubeData {
    CubeData {
        model: F32x3 { x: ZERO_BITS, y: ZERO_BITS, z: ZERO_BITS },
        size: F32x3 { x: ONE_BITS, y: ONE_BITS, z: ONE_BITS },
        rot: identity_rotation(),
    }
}

/// `raw` rounded up to the next multiple of `chunk`.
pub open spec fn round_up(raw: nat, chunk: nat) -> nat {
    (((raw + chunk - 1) as nat / chunk) * chunk) as nat
}

/// Owns every shape of the scene, hands out kind-local indices and lays the
/// scene out as GPU buffers.
pub struct ShapeManager {
    shapes: Vec<Shape>,
    spheres: Vec<u32>,
    cubes: Vec<u32>,
    unions: Vec<u32>,
}

impl ShapeManager {
    /// Every shape, in storage (creation) order.
    pub closed spec fn shapes(&self) -> Seq<Shape> {
        self.shapes@
    }

    /// The index table of kind `k`: the storage position of each shape of
    /// that kind, by kind-local index.
    pub closed spec fn slots(&self, k: ShapeKind) -> Seq<u32> {
        match k {
            ShapeKind::Sphere => self.spheres@,
            ShapeKind::Cube => self.cubes@,
            ShapeKind::Union => self.unions@,
        }
    }

    pub open spec fn wf(&self) -> bool {
        &&& self.shapes().len() <= u32::MAX
        &&& index_table_ok(self.shapes(), self.slots(ShapeKind::Sphere), ShapeKind::Sphere)
        &&& index_table_ok(self.shapes(), self.slots(ShapeKind::Cube), ShapeKind::Cube)
        &&& index_table_ok(self.shapes(), self.slots(ShapeKind::Union), ShapeKind::Union)
    }

    pub fn new() -> (r: Self)
        ensures
            r.wf(),
            r.shapes() == Seq::<Shape>::empty(),
            r.slots(ShapeKind::Sphere) == Seq::<u32>::empty(),
            r.slots(ShapeKind::Cube) == Seq::<u32>::empty(),
            r.slots(ShapeKind::Union) == Seq::<u32>::empty(),
    {
        ShapeManager { shapes: Vec::new(), spheres: Vec::new(), cubes: Vec::new(), unions: Vec::new() }
    }

    /// Adds a sphere and returns it for further configuration.  Its
    /// kind-local index is the number of spheres created before it.
    pub fn new_sphere(&mut self, pos: F32x3, radius: u32, color: F32x3) -> (r: &mut Sphere)
        requires
            old(self).wf(),
            old(self).shapes().len() < u32::MAX,
        ensures
            r.center() == pos,
            r.radius() == radius,
            r.color() == color,
            r.index() == old(self).slots(ShapeKind::Sphere).len(),
            r.flags().is_enabled(),
            final(self).shapes() == old(self).shapes().push(Shape::Sphere(*final(r))),
            final(self).slots(ShapeKind::Sphere) == old(self).slots(ShapeKind::Sphere).push(
                old(self).shapes().len() as u32,
            ),
            final(self).slots(ShapeKind::Cube) == old(self).slots(ShapeKind::Cube),
            final(self).slots(ShapeKind::Union) == old(self).slots(ShapeKind::Union),
            final(r).index() == r.index() ==> final(self).wf(),
    {
        let n = self.shapes.len();
        let index = self.spheres.len() as u32;
        let sphere = Sphere { pos, radius, color, index, flags: Flags::enabled() };
        proof {
            let s = Shape::Sphere(sphere);
            lemma_index_table_push_same(self.shapes@, self.spheres@, ShapeKind::Sphere, s);
            lemma_index_table_push_other(self.shapes@, self.cubes@, ShapeKind::Cube, s);
            lemma_index_table_push_other(self.shapes@, self.unions@, ShapeKind::Union, s);
        }
        self.spheres.push(n as u32);
        self.shapes.push(Shape::Sphere(sphere));
        match &mut self.shapes[n] {
            Shape::Sphere(s) => s,
            _ => {
                proof {
                    assert(false);
                }
                vstd::pervasive::unreached()
            },
        }
    }

    /// Adds an unrotated cube and returns it for further configuration.  Its
    /// kind-local index is the number of cubes created before it.
    pub fn new_cube(&mut self, pos: F32x3, bounds: F32x3, color: F32x3) -> (r: &mut Cube)
        requires
            old(self).wf(),
            old(self).shapes().len() < u32::MAX,
        ensures
            r.center() == pos,
            r.bounds() == bounds,
            r.rotation() == identity_rotation(),
            r.color() == color,
            r.index() == old(self).slots(ShapeKind::Cube).len(),
            r.flags().is_enabled(),
            final(self).shapes() == old(self).shapes().push(Shape::Cube(*final(r))),
            final(self).slots(ShapeKind::Cube) == old(self).slots(ShapeKind::Cube).push(
                old(self).shapes().len() as u32,
            ),
            final(self).slots(ShapeKind::Sphere) == old(self).slots(ShapeKind::Sphere),
            final(self).slots(ShapeKind::Union) == old(self).slots(ShapeKind::Union),
            final(r).index() == r.index() ==> final(self).wf(),
    {
        let n = self.shapes.len();
        let index = self.cubes.len() as u32;
        let rot = F32x4 { x: ZERO_BITS, y: ZERO_BITS, z: ZERO_BITS, w: ONE_BITS };
        let cube = Cube { pos, bounds, rot, color, index, flags: Flags::enabled() };
        proof {
            let s = Shape::Cube(cube);
            lemma_index_table_push_other(self.shapes@, self.spheres@, ShapeKind::Sphere, s);
            lemma_index_table_push_same(self.shapes@, self.cubes@, ShapeKind::Cube, s);
            lemma_index_table_push_other(self.shapes@, self.unions@, ShapeKind::Union, s);
        }
        self.cubes.push(n as u32);
        self.shapes.push(Shape::Cube(cube));
        match &mut self.shapes[n] {
            Shape::Cube(c) => c,
            _ => {
                proof {
                    assert(false);
                }
                vstd::pervasive::unreached()
            },
        }
    }

    /// Combines the shapes stored at positions `left` and `right` into a
    /// union.  Both operands are disabled first, then the union is appended
    /// and returned.  Fails, changing nothing, unless both positions hold a
    /// shape.
    pub fn new_union(&mut self, left: u32, right: u32) -> (r: Option<&mut Union>)
        requires
            old(self).wf(),
            old(self).shapes().len() < u32::MAX,
        ensures
            r is Some <==> ((left as int) < old(self).shapes().len() && (right as int) < old(
                self,
            ).shapes().len()),
            r is None ==> *final(self) == *old(self),
            r matches Some(u) ==> {
                &&& u.left() == left
                &&& u.right() == right
                &&& u.index() == old(self).slots(ShapeKind::Union).len()
                &&& u.flags().is_enabled()
                &&& final(self).shapes() == with_operands_disabled(
                    old(self).shapes(),
                    left as int,
                    right as int,
                ).push(Shape::Union(*final(u)))
                &&& final(self).slots(ShapeKind::Union) == old(self).slots(ShapeKind::Union).push(
                    old(self).shapes().len() as u32,
                )
                &&& final(self).slots(ShapeKind::Sphere) == old(self).slots(ShapeKind::Sphere)
                &&& final(self).slots(ShapeKind::Cube) == old(self).slots(ShapeKind::Cube)
                &&& final(u).index() == u.index() ==> final(self).wf()
            },
    {
        let n = self.shapes.len();
        if (left as usize) >= n || (right as usize) >= n {
            return None;
        }
        let ghost s0 = self.shapes@;
        let l = left as usize;
        let rr = right as usize;
        {
            let a = &mut self.shapes[l];
            a.set_flag(Flag::Enabled, false);
        }
        proof {
            let t = s0[l as int].with_flag(Flag::Enabled, false);
            lemma_index_table_edit(s0, self.spheres@, ShapeKind::Sphere, l as int, t);
            lemma_index_table_edit(s0, self.cubes@, ShapeKind::Cube, l as int, t);
            lemma_index_table_edit(s0, self.unions@, ShapeKind::Union, l as int, t);
        }
        let ghost s1 = self.shapes@;
        {
            let b = &mut self.shapes[rr];
            b.set_flag(Flag::Enabled, false);
        }
        proof {
            let t = s1[rr as int].with_flag(Flag::Enabled, false);
            lemma_index_table_edit(s1, self.spheres@, ShapeKind::Sphere, rr as int, t);
            lemma_index_table_edit(s1, self.cubes@, ShapeKind::Cube, rr as int, t);
            lemma_index_table_edit(s1, self.unions@, ShapeKind::Union, rr as int, t);
            assert(self.shapes@ == with_operands_disabled(s0, l as int, rr as int));
        }
        let index = self.unions.len() as u32;
        let node = Union { left, right, index, flags: Flags::enabled() };
        proof {
            let s = Shape::Union(node);
            lemma_index_table_push_other(self.shapes@, self.spheres@, ShapeKind::Sphere, s);
            lemma_index_table_push_other(self.shapes@, self.cubes@, ShapeKind::Cube, s);
            lemma_index_table_push_same(self.shapes@, self.unions@, ShapeKind::Union, s);
        }
        self.unions.push(n as u32);
        self.shapes.push(Shape::Union(node));
        match &mut self.shapes[n] {
            Shape::Union(u) => Some(u),
            _ => {
                proof {
                    assert(false);
                }
                None
            },
        }
    }

    /// The shape stored at position `index`.
    pub fn get_shape(&self, index: u32) -> (r: Option<&Shape>)
        ensures
            r is Some <==> (index as int) < self.shapes().len(),
            r matches Some(s) ==> *s == self.shapes()[index as int],
    {
        if (index as usize) < self.shapes.len() {
            Some(&self.shapes[index as usize])
        } else {
            None
        }
    }

    /// The shape stored at position `index`, for modification.
    pub fn get_shape_mut(&mut self, index: u32) -> (r: Option<&mut Shape>)
        ensures
            r is Some <==> (index as int) < old(self).shapes().len(),
            r is None ==> *final(self) == *old(self),
            r matches Some(s) ==> {
                &&& *s == old(self).shapes()[index as int]
                &&& final(self).shapes() == old(self).shapes().update(index as int, *final(s))
                &&& final(self).slots(ShapeKind::Sphere) == old(self).slots(ShapeKind::Sphere)
                &&& final(self).slots(ShapeKind::Cube) == old(self).slots(ShapeKind::Cube)
                &&& final(self).slots(ShapeKind::Union) == old(self).slots(ShapeKind::Union)
            },
    {
        if (index as usize) < self.shapes.len() {
            Some(&mut self.shapes[index as usize])
        } else {
            None
        }
    }

    /// The sphere with kind-local index `index`.
    pub fn get_sphere(&self, index: u32) -> (r: Option<&Sphere>)
        requires
            self.wf(),
        ensures
            r is Some <==> (index as int) < self.slots(ShapeKind::Sphere).len(),
            r matches Some(s) ==> self.shapes()[self.slots(ShapeKind::Sphere)[index as int] as int]
                == Shape::Sphere(*s),
    {
        if (index as usize) >= self.spheres.len() {
            return None;
        }
        let p = self.spheres[index as usize] as usize;
        if p >= self.shapes.len() {
            return None;
        }
        match &self.shapes[p] {
            Shape::Sphere(s) => Some(s),
            _ => None,
        }
    }

    /// The sphere with kind-local index `index`, for modification.
    pub fn get_sphere_mut(&mut self, index: u32) -> (r: Option<&mut Sphere>)
        requires
            old(self).wf(),
        ensures
            r is Some <==> (index as int) < old(self).slots(ShapeKind::Sphere).len(),
            r is None ==> *final(self) == *old(self),
            r matches Some(s) ==> {
                let p = old(self).slots(ShapeKind::Sphere)[index as int] as int;
                &&& old(self).shapes()[p] == Shape::Sphere(*s)
                &&& final(self).shapes() == old(self).shapes().update(p, Shape::Sphere(*final(s)))
                &&& final(self).slots(ShapeKind::Sphere) == old(self).slots(ShapeKind::Sphere)
                &&& final(self).slots(ShapeKind::Cube) == old(self).slots(ShapeKind::Cube)
                &&& final(self).slots(ShapeKind::Union) == old(self).slots(ShapeKind::Union)
            },
    {
        if (index as usize) >= self.spheres.len() {
            return None;
        }
        let p = self.spheres[index as usize] as usize;
        if p >= self.shapes.len() {
            return None;
        }
        match &mut self.shapes[p] {
            Shape::Sphere(s) => Some(s),
            _ => None,
        }
    }

    /// The cube with kind-local index `index`.
    pub fn get_cube(&self, index: u32) -> (r: Option<&Cube>)
        requires
            self.wf(),
        ensures
            r is Some <==> (index as int) < self.slots(ShapeKind::Cube).len(),
            r matches Some(c) ==> self.shapes()[self.slots(ShapeKind::Cube)[index as int] as int]
                == Shape::Cube(*c),
    {
        if (index as usize) >= self.cubes.len() {
            return None;
        }
        let p = self.cubes[index as usize] as usize;
        if p >= self.shapes.len() {
            return None;
        }
        match &self.shapes[p] {
            Shape::Cube(c) => Some(c),
            _ => None,
        }
    }

    /// The cube with kind-local index `index`, for modification.
    pub fn get_cube_mut(&mut self, index: u32) -> (r: Option<&mut Cube>)
        requires
            old(self).wf(),
        ensures
            r is Some <==> (index as int) < old(self).slots(ShapeKind::Cube).len(),
            r is None ==> *final(self) == *old(self),
            r matches Some(c) ==> {
                let p = old(self).slots(ShapeKind::Cube)[index as int] as int;
                &&& old(self).shapes()[p] == Shape::Cube(*c)
                &&& final(self).shapes() == old(self).shapes().update(p, Shape::Cube(*final(c)))
                &&& final(self).slots(ShapeKind::Sphere) == old(self).slots(ShapeKind::Sphere)
                &&& final(self).slots(ShapeKind::Cube) == old(self).slots(ShapeKind::Cube)
                &&& final(self).slots(ShapeKind::Union) == old(self).slots(ShapeKind::Union)
            },
    {
        if (index as usize) >= self.cubes.len() {
            return None;
        }
        let p = self.cubes[index as usize] as usize;
        if p >= self.shapes.len() {
            return None;
        }
        match &mut self.shapes[p] {
            Shape::Cube(c) => Some(c),
            _ => None,
        }
    }

    /// The generic records of every shape in storage order, each with the
    /// screen-space box at the same position of `boxes`; a single sentinel
    /// record when there is no shape, so the buffer is never empty.
    pub fn serialize_shapes(&self, boxes: &Vec<F32x4>) -> (r: Vec<u8>)
        requires
            boxes@.len() == self.shapes().len(),
        ensures
            r@ == if self.shapes().len() == 0 {
                ShapeData::sentinel().bytes()
            } else {
                shape_records(self.shapes(), boxes@, self.shapes().len())
            },
    {
        let mut out: Vec<u8> = Vec::new();
        if self.shapes.len() == 0 {
            let d = ShapeData::default();
            d.write_to(&mut out);
            return out;
        }
        let mut i: usize = 0;
        while i < self.shapes.len()
            invariant
                i <= self.shapes@.len(),
                boxes@.len() == self.shapes@.len(),
                out@ == shape_records(self.shapes@, boxes@, i as nat),
            decreases self.shapes@.len() - i,
        {
            let d = self.shapes[i].shape_data(boxes[i]);
            d.write_to(&mut out);
            i = i + 1;
        }
        out
    }

    /// The sphere records in storage order; the placeholder sphere's record
    /// when there is no sphere.
    pub fn serialize_spheres(&self) -> (r: Vec<u8>)
        ensures
            r@ == if self.slots(ShapeKind::Sphere).len() == 0 {
                placeholder_sphere_data().bytes()
            } else {
                sphere_records(self.shapes(), self.shapes().len())
            },
    {
        let mut out: Vec<u8> = Vec::new();
        if self.spheres.len() == 0 {
            let d = Sphere::default().sphere_data();
            d.write_to(&mut out);
            return out;
        }
        let mut i: usize = 0;
        while i < self.shapes.len()
            invariant
                i <= self.shapes@.len(),
                out@ == sphere_records(self.shapes@, i as nat),
            decreases self.shapes@.len() - i,
        {
            match &self.shapes[i] {
                Shape::Sphere(s) => {
                    let d = s.sphere_data();
                    d.write_to(&mut out);
                },
                _ => {
                    assert(out@ =~= out@ + Seq::<u8>::empty());
                },
            }
            i = i + 1;
        }
        out
    }

    /// The cube records in storage order; the placeholder cube's record when
    /// there is no cube.
    pub fn serialize_cubes(&self) -> (r: Vec<u8>)
        ensures
            r@ == if self.slots(ShapeKind::Cube).len() == 0 {
                placeholder_cube_data().bytes()
            } else {
                cube_records(self.shapes(), self.shapes().len())
            },
    {
        let mut out: Vec<u8> = Vec::new();
        if self.cubes.len() == 0 {
            let d = Cube::default().cube_data();
            d.write_to(&mut out);
            return out;
        }
        let mut i: usize = 0;
        while i < self.shapes.len()
            invariant
                i <= self.shapes@.len(),
                out@ == cube_records(self.shapes@, i as nat),
            decreases self.shapes@.len() - i,
        {
            match &self.shapes[i] {
                Shape::Cube(c) => {
                    let d = c.cube_data();
                    d.write_to(&mut out);
                },
                _ => {
                    assert(out@ =~= out@ + Seq::<u8>::empty());
                },
            }
            i = i + 1;
        }
        out
    }

    /// Every shape, in storage order.
    pub fn iter_shapes(&self) -> (r: &Vec<Shape>)
        ensures
            r@ == self.shapes(),
    {
        &self.shapes
    }

    /// `raw_size` bytes rounded up to a whole number of `chunk_size` chunks.
    pub fn buffer_size(raw_size: usize, chunk_size: u32) -> (r: u32)
        requires
            chunk_size > 0,
            round_up(raw_size as nat, chunk_size as nat) <= u32::MAX,
        ensures
            r == round_up(raw_size as nat, chunk_size as nat),
    {
        proof {
            lemma_round_up_bounds(raw_size as nat, chunk_size as nat);
        }
        let raw = raw_size as u64;
        let chunk = chunk_size as u64;
        let chunks = (raw + chunk - 1) / chunk;
        proof {
            assert(chunks * chunk == round_up(raw_size as nat, chunk_size as nat));
        }
        (chunks * chunk) as u32
    }

    /// Size of the generic-record buffer, rounded to `chunk_size`.
    pub fn shape_buffer_size(&self, chunk_size: u32) -> (r: u32)
        requires
            self.wf(),
            chunk_size > 0,
            round_up(48 * self.shapes().len(), chunk_size as nat) <= u32::MAX,
        ensures
            r == round_up(48 * self.shapes().len(), chunk_size as nat),
    {
        proof {
            lemma_round_up_bounds(48 * self.shapes().len(), chunk_size as nat);
        }
        ShapeManager::buffer_size(48 * self.shapes.len(), chunk_size)
    }

    /// Size of the sphere-record buffer, rounded to `chunk_size`.
    pub fn sphere_buffer_size(&self, chunk_size: u32) -> (r: u32)
        requires
            self.wf(),
            chunk_size > 0,
            round_up(16 * self.slots(ShapeKind::Sphere).len(), chunk_size as nat) <= u32::MAX,
        ensures
            r == round_up(16 * self.slots(ShapeKind::Sphere).len(), chunk_size as nat),
    {
        proof {
            lemma_round_up_bounds(16 * self.slots(ShapeKind::Sphere).len(), chunk_size as nat);
        }
        ShapeManager::buffer_size(16 * self.spheres.len(), chunk_size)
    }

    /// Size of the cube-record buffer, rounded to `chunk_size`.
    pub fn cube_buffer_size(&self, chunk_size: u32) -> (r: u32)
        requires
            self.wf(),
            chunk_size > 0,
            round_up(48 * self.slots(ShapeKind::Cube).len(), chunk_size as nat) <= u32::MAX,
        ensures
            r == round_up(48 * self.slots(ShapeKind::Cube).len(), chunk_size as nat),
    {
        proof {
            lemma_round_up_bounds(48 * self.slots(ShapeKind::Cube).len(), chunk_size as nat);
        }
        ShapeManager::buffer_size(48 * self.cubes.len(), chunk_size)
    }

    /// Writes the shape, sphere and cube counts into the shader's config.
    pub fn update_shader_config(&self, config: &mut ObjectCounts)
        requires
            self.wf(),
        ensures
            final(config).shape_count == self.shapes().len(),
            final(config).sphere_count == self.slots(ShapeKind::Sphere).len(),
            final(config).cube_count == self.slots(ShapeKind::Cube).len(),
    {
        config.shape_count = self.shapes.len() as u32;
        config.sphere_count = self.spheres.len() as u32;
        config.cube_count = self.cubes.len() as u32;
    }

    /// Number of shapes of every kind.
    pub fn shape_count(&self) -> (r: u32)
        requires
            self.wf(),
        ensures
            r == self.shapes().len(),
    {
        self.shapes.len() as u32
    }

    /// Number of spheres created so far.
    pub fn sphere_count(&self) -> (r: u32)
        requires
            self.wf(),
        ensures
            r == self.slots(ShapeKind::Sphere).len(),
    {
        self.spheres.len() as u32
    }

    /// Number of cubes created so far.
    pub fn cube_count(&self) -> (r: u32)
        requires
            self.wf(),
        ensures
            r == self.slots(ShapeKind::Cube).len(),
    {
        self.cubes.len() as u32
    }
}

/// Rounding up never goes below the raw size nor a chunk beyond it.
proof fn lemma_round_up_bounds(raw: nat, chunk: nat)
    requires
        chunk > 0,
    ensures
        raw <= round_up(raw, chunk) < raw + chunk,
{
    let x: int = raw + chunk - 1;
    let c: int = chunk as int;
    vstd::arithmetic::div_mod::lemma_fundamental_div_mod(x, c);
    vstd::arithmetic::div_mod::lemma_mod_pos_bound(x, c);
    let q: int = x / c;
    assert(c * q == q * c) by (nonlinear_arith);
    assert(q >= 0) by (nonlinear_arith)
        requires x >= 0, c > 0, q == x / c;
}

/// Number of shapes of kind `k` among the first `n` shapes.
pub open spec fn count_kind(shapes: Seq<Shape>, k: ShapeKind, n: nat) -> nat
    decreases n,
{
    if n == 0 {
        0
    } else if shapes[n - 1].kind() == k {
        count_kind(shapes, k, (n - 1) as nat) + 1
    } else {
        count_kind(shapes, k, (n - 1) as nat)
    }
}

/// The index table entries that point before position `n` are exactly the
/// first `count_kind(shapes, k, n)` ones.
proof fn lemma_table_prefix(shapes: Seq<Shape>, slots: Seq<u32>, k: ShapeKind, n: nat)
    requires
        index_table_ok(shapes, slots, k),
        n <= shapes.len(),
    ensures
        count_kind(shapes, k, n) <= slots.len(),
        forall|j: int|
            0 <= j < slots.len() ==> ((#[trigger] slots[j] as int) < n <==> j < count_kind(
                shapes,
                k,
                n,
            )),
    decreases n,
{
    if n > 0 {
        let m = (n - 1) as nat;
        lemma_table_prefix(shapes, slots, k, m);
        let c = count_kind(shapes, k, m);
        if shapes[m as int].kind() == k {
            let e = shapes[m as int].index() as int;
            assert(slots[e] == m);
            if e > c {
                assert(slots[c as int] < slots[e]);
            }
            assert(e == c);
            assert forall|j: int| 0 <= j < slots.len() implies ((#[trigger] slots[j] as int) < n
                <==> j < c + 1) by {
                if j < e {
                    assert(slots[j] < slots[e]);
                } else if j > e {
                    assert(slots[e] < slots[j]);
                }
            }
        } else {
            assert forall|j: int| 0 <= j < slots.len() implies ((#[trigger] slots[j] as int) < n
                <==> j < c) by {
                if slots[j] == m {
                    assert(shapes[slots[j] as int].kind() == k);
                }
            }
        }
    }
}

/// In a well-formed manager, the kind-local index of every shape is the
/// number of shapes of its kind stored before it: spheres are numbered 0, 1,
/// 2, ... in creation order whatever other shapes are created between them.
pub proof fn lemma_index_is_ordinal(m: &ShapeManager)
    requires
        m.wf(),
    ensures
        forall|i: int|
            0 <= i < m.shapes().len() ==> (#[trigger] m.shapes()[i]).index() == count_kind(
                m.shapes(),
                m.shapes()[i].kind(),
                i as nat,
            ),
{
    let s = m.shapes();
    assert forall|i: int| 0 <= i < s.len() implies (#[trigger] s[i]).index() == count_kind(
        s,
        s[i].kind(),
        i as nat,
    ) by {
        let k = s[i].kind();
        let slots = m.slots(k);
        assert(index_table_ok(s, slots, k));
        lemma_table_prefix(s, slots, k, i as nat);
        lemma_table_prefix(s, slots, k, (i + 1) as nat);
        let e = s[i].index() as int;
        assert(slots[e] == i);
    }
}

/// Creating a union disables both operands, keeps every shape's kind and
/// kind-local index, and leaves every other shape as it was.
pub proof fn lemma_union_disables_operands(shapes: Seq<Shape>, a: int, b: int)
    requires
        0 <= a < shapes.len(),
        0 <= b < shapes.len(),
    ensures
        with_operands_disabled(shapes, a, b).len() == shapes.len(),
        !with_operands_disabled(shapes, a, b)[a].flags().flag(Flag::Enabled),
        !with_operands_disabled(shapes, a, b)[b].flags().flag(Flag::Enabled),
        forall|i: int|
            0 <= i < shapes.len() ==> {
                &&& (#[trigger] with_operands_disabled(shapes, a, b)[i]).kind() == shapes[i].kind()
                &&& with_operands_disabled(shapes, a, b)[i].index() == shapes[i].index()
            },
        forall|i: int|
            0 <= i < shapes.len() && i != a && i != b ==> #[trigger] with_operands_disabled(
                shapes,
                a,
                b,
            )[i] == shapes[i],
{
    let first = shapes.update(a, shapes[a].with_flag(Flag::Enabled, false));
    shapes[a].flags().lemma_with_flag(Flag::Enabled, false);
    first[b].flags().lemma_with_flag(Flag::Enabled, false);
    first[b].flags().with_flag(Flag::Enabled, false).lemma_with_flag(Flag::Enabled, false);
    if a != b {
        assert(with_operands_disabled(shapes, a, b)[a] == first[a]);
    }
}

/// Every generic record takes 48 bytes.
pub proof fn lemma_shape_records_len(shapes: Seq<Shape>, boxes: Seq<F32x4>, n: nat)
    ensures
        shape_records(shapes, boxes, n).len() == 48 * n,
    decreases n,
{
    if n > 0 {
        lemma_shape_records_len(shapes, boxes, (n - 1) as nat);
        crate::layout::lemma_le_words_len(shapes[n - 1].data(boxes[n - 1]).spec_words());
    }
}

/// The generic buffer holds one 48-byte record per shape, and one when
/// there is no shape.
pub proof fn lemma_serialized_shapes_len(m: &ShapeManager, boxes: Seq<F32x4>)
    ensures
        (if m.shapes().len() == 0 {
            ShapeData::sentinel().bytes()
        } else {
            shape_records(m.shapes(), boxes, m.shapes().len())
        }).len() == if m.shapes().len() == 0 {
            48
        } else {
            48 * m.shapes().len()
        },
{
    lemma_shape_records_len(m.shapes(), boxes, m.shapes().len());
    crate::layout::lemma_le_words_len(ShapeData::sentinel().spec_words());
}

/// Each sphere contributes one 16-byte record.
pub proof fn lemma_sphere_records_len(shapes: Seq<Shape>, n: nat)
    requires
        n <= shapes.len(),
    ensures
        sphere_records(shapes, n).len() == 16 * count_kind(shapes, ShapeKind::Sphere, n),
    decreases n,
{
    if n > 0 {
        lemma_sphere_records_len(shapes, (n - 1) as nat);
        if let Shape::Sphere(sp) = shapes[n - 1] {
            crate::layout::lemma_le_words_len(sp.data().spec_words());
        }
    }
}

/// Each cube contributes one 48-byte record.
pub proof fn lemma_cube_records_len(shapes: Seq<Shape>, n: nat)
    requires
        n <= shapes.len(),
    ensures
        cube_records(shapes, n).len() == 48 * count_kind(shapes, ShapeKind::Cube, n),
    decreases n,
{
    if n > 0 {
        lemma_cube_records_len(shapes, (n - 1) as nat);
        if let Shape::Cube(c) = shapes[n - 1] {
            crate::layout::lemma_le_words_len(c.data().spec_words());
        }
    }
}

/// In a well-formed manager the index table of each kind has one entry per
/// stored shape of that kind.
pub proof fn lemma_table_len_is_count(m: &ShapeManager, k: ShapeKind)
    requires
        m.wf(),
    ensures
        m.slots(k).len() == count_kind(m.shapes(), k, m.shapes().len()),
{
    let s = m.shapes();
    let slots = m.slots(k);
    assert(index_table_ok(s, slots, k));
    lemma_table_prefix(s, slots, k, s.len());
    if count_kind(s, k, s.len()) < slots.len() {
        let j = count_kind(s, k, s.len()) as int;
        assert((slots[j] as int) < s.len());
    }
}

/// The sphere and cube buffers hold one record per sphere and per cube
/// counted in the shader configuration, or a single placeholder record
/// when that count is zero.
pub proof fn lemma_buffers_match_counts(m: &ShapeManager)
    requires
        m.wf(),
    ensures
        (if m.slots(ShapeKind::Sphere).len() == 0 {
            placeholder_sphere_data().bytes()
        } else {
            sphere_records(m.shapes(), m.shapes().len())
        }).len() == 16 * if m.slots(ShapeKind::Sphere).len() == 0 {
            1
        } else {
            m.slots(ShapeKind::Sphere).len()
        },
        (if m.slots(ShapeKind::Cube).len() == 0 {
            placeholder_cube_data().bytes()
        } else {
            cube_records(m.shapes(), m.shapes().len())
        }).len() == 48 * if m.slots(ShapeKind::Cube).len() == 0 {
            1
        } else {
            m.slots(ShapeKind::Cube).len()
        },
{
    lemma_table_len_is_count(m, ShapeKind::Sphere);
    lemma_table_len_is_count(m, ShapeKind::Cube);
    lemma_sphere_records_len(m.shapes(), m.shapes().len());
    lemma_cube_records_len(m.shapes(), m.shapes().len());
    crate::layout::lemma_le_words_len(placeholder_sphere_data().spec_words());
    crate::layout::lemma_le_words_len(placeholder_cube_data().spec_words());
}

} // verus!
