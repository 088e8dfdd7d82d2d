//! Quad geometry: the vertex record of the batch, the four corners of a quad,
//! the repeating index pattern, and the vertex layout that matches the record.
use crate::layout::{
    element_types,
    prefix_size,
    stride_of,
    BufferElement,
    BufferLayout,
    ShaderDataType,
};
use vstd::prelude::*;

verus! {

/// A position in the integer world units that the projection passed to the
/// batch maps to the screen.
#[derive(Clone, Copy, Debug, PartialEq, Eq, Structural)]
pub struct Vec3i {
    pub x: i32,
    pub y: i32,
    pub z: i32,
}

/// A width and height in world units.
#[derive(Clone, Copy, Debug, PartialEq, Eq, Structural)]
pub struct Vec2i {
    pub x: i32,
    pub y: i32,
}

/// An RGBA colour, one byte per channel; 255 is full intensity.
#[derive(Clone, Copy, Debug, PartialEq, Eq, Structural)]
pub struct Color {
    pub r: u8,
    pub g: u8,
    pub b: u8,
    pub a: u8,
}

/// A texture coordinate at a corner of the texture: each component is 0 or 1,
/// scaled by the texture's tiling factor in the shader.
#[derive(Clone, Copy, Debug, PartialEq, Eq, Structural)]
pub struct TexCoord {
    pub u: u8,
    pub v: u8,
}

/// One vertex of the batch: position, tint, texture coordinate and the slot of
/// the texture it samples.
#[derive(Clone, Copy, Debug, PartialEq, Eq, Structural)]
pub struct QuadVertex {
    pub position: Vec3i,
    pub color: Color,
    pub texture_coordinate: TexCoord,
    pub texture_index: u32,
}

/// Opaque white, the tint of textured quads.
pub open spec fn white() -> Color {
    Color { r: 255, g: 255, b: 255, a: 255 }
}

/// Every corner of a quad at `position` with extent `size` fits in `i32`.
pub open spec fn quad_fits(position: Vec3i, size: Vec2i) -> bool {
    &&& i32::MIN <= position.x + size.x <= i32::MAX
    &&& i32::MIN <= position.y + size.y <= i32::MAX
}

/// Horizontal and vertical selectors of corner `k`: bottom-left,
/// bottom-right, top-right, top-left.
pub open spec fn corner_dx(k: int) -> int {
    if k == 1 || k == 2 {
        1
    } else {
        0
    }
}

pub open spec fn corner_dy(k: int) -> int {
    if k == 2 || k == 3 {
        1
    } else {
        0
    }
}

/// Vertex `k` (0 to 3) of a quad: its corner is `position` moved by the
/// selected parts of `size`, and its texture coordinate is the selector pair.
pub open spec fn corner_vertex(position: Vec3i, size: Vec2i, color: Color, slot: u32, k: int) -> QuadVertex {
    QuadVertex {
        position: Vec3i {
            x: (position.x + corner_dx(k) * size.x) as i32,
            y: (position.y + corner_dy(k) * size.y) as i32,
            z: position.z,
        },
        color,
        texture_coordinate: TexCoord { u: corner_dx(k) as u8, v: corner_dy(k) as u8 },
        texture_index: slot,
    }
}

/// The four vertices of a quad, in corner order.
pub open spec fn quad_spec(position: Vec3i, size: Vec2i, color: Color, slot: u32) -> Seq<QuadVertex> {
    Seq::new(4, |k: int| corner_vertex(position, size, color, slot, k))
}

/// Builds the four vertices of a quad in corner order: bottom-left,
/// bottom-right, top-right, top-left.
pub fn quad_vertices(position: Vec3i, size: Vec2i, color: Color, slot: u32) -> (r: [QuadVertex; 4])
    requires
        quad_fits(position, size),
    ensures
        r@ == quad_spec(position, size, color, slot),
{
    let right = position.x + size.x;
    let top = position.y + size.y;
    let r = [
        QuadVertex {
            position,
            color,
            texture_coordinate: TexCoord { u: 0, v: 0 },
            texture_index: slot,
        },
        QuadVertex {
            position: Vec3i { x: right, y: position.y, z: position.z },
            color,
            texture_coordinate: TexCoord { u: 1, v: 0 },
            texture_index: slot,
        },
        QuadVertex {
            position: Vec3i { x: right, y: top, z: position.z },
            color,
            texture_coordinate: TexCoord { u: 1, v: 1 },
            texture_index: slot,
        },
        QuadVertex {
            position: Vec3i { x: position.x, y: top, z: position.z },
            color,
            texture_coordinate: TexCoord { u: 0, v: 1 },
            texture_index: slot,
        },
    ];
    assert(r@ =~= quad_spec(position, size, color, slot));
    r
}

/// Largest quad capacity whose indices fit in `u32` and whose index count
/// fits in the `i32` count of a GL draw call.
pub const MAX_QUADS_LIMIT: usize = 0x1555_5555;

/// Index `k` (0 to 5) of quad `q`: two triangles, `4q, 4q+1, 4q+2` and
/// `4q+2, 4q+3, 4q`.
pub open spec fn quad_index(q: int, k: int) -> int {
    4 * q + if k == 0 || k == 5 {
        0int
    } else if k == 1 {
        1int
    } else if k == 2 || k == 3 {
        2int
    } else {
        3int
    }
}

/// The index buffer for `max_quads` quads: six indices per quad, quad `q`
/// using vertices `4q` to `4q+3`.
pub fn quad_indices(max_quads: usize) -> (r: Vec<u32>)
    requires
        max_quads <= MAX_QUADS_LIMIT,
    ensures
        r@.len() == 6 * max_quads,
        forall|q: int, k: int|
            0 <= q < max_quads && 0 <= k < 6 ==> #[trigger] r@[6 * q + k] == quad_index(q, k),
{
    let mut indices: Vec<u32> = Vec::new();
    let mut offset: u32 = 0;
    let mut q: usize = 0;
    while q < max_quads
        invariant
            q <= max_quads <= MAX_QUADS_LIMIT,
            offset == 4 * q,
            indices@.len() == 6 * q,
            forall|p: int, k: int|
                0 <= p < q && 0 <= k < 6 ==> #[trigger] indices@[6 * p + k] == quad_index(p, k),
        decreases max_quads - q,
    {
        indices.push(offset);
        indices.push(offset + 1);
        indices.push(offset + 2);
        indices.push(offset + 2);
        indices.push(offset + 3);
        indices.push(offset);
        proof {
            assert forall|p: int, k: int| 0 <= p < q + 1 && 0 <= k < 6 implies #[trigger] indices@[6
                * p + k] == quad_index(p, k) by {
                if p == q {
                    assert(6 * p + k == 6 * q + k);
                }
            }
        }
        offset = offset + 4;
        q = q + 1;
    }
    indices
}

/// The attribute types of `QuadVertex`, in field order: position, colour,
/// texture coordinate, texture slot.
pub open spec fn quad_vertex_types() -> Seq<ShaderDataType> {
    seq![ShaderDataType::Float3, ShaderDataType::Float4, ShaderDataType::Float2, ShaderDataType::Float1]
}

/// The GPU layout of a batch vertex: three position floats, four colour
/// floats, two texture-coordinate floats and one texture-slot float, 40 bytes
/// in all.
pub fn quad_vertex_layout() -> (r: BufferLayout)
    ensures
        element_types(r.spec_elements()) == quad_vertex_types(),
        r.spec_stride() == stride_of(quad_vertex_types()),
        r.spec_stride() == 40,
{
    let mut elements: Vec<BufferElement> = Vec::new();
    elements.push(BufferElement::new(String::from_str("aposition"), ShaderDataType::Float3, false));
    elements.push(BufferElement::new(String::from_str("acolor"), ShaderDataType::Float4, false));
    elements.push(
        BufferElement::new(String::from_str("atexture_coordinate"), ShaderDataType::Float2, false),
    );
    elements.push(BufferElement::new(String::from_str("atexture_index"), ShaderDataType::Float1, false));
    assert(element_types(elements@) =~= quad_vertex_types());
    proof {
        reveal_with_fuel(prefix_size, 5);
    }
    let r = BufferLayout::new(elements);
    assert(element_types(r.spec_elements()) =~= quad_vertex_types());
    r
}

} // verus!
