//! The batch: a capacity-bounded vertex accumulator with its texture-slot
//! table. Each draw appends one quad; when a quad would not fit, the batch
//! first hands back everything accumulated as one `DrawCommand` and starts
//! over, so no quad is ever split or dropped.
use crate::quad::{
    quad_fits,
    quad_spec,
    quad_vertices,
    white,
    Color,
    QuadVertex,
    Vec2i,
    Vec3i,
    MAX_QUADS_LIMIT,
};
use crate::texture::{init_result, Texture, GL_TEXTURE0};
use vstd::prelude::*;

verus! {

/// Quads that the renderer's batch holds before it must flush.
pub const MAX_QUADS: usize = 10000;

pub const MAX_VERTICES: usize = MAX_QUADS * 4;

pub const MAX_INDICES: usize = MAX_QUADS * 6;

/// Texture units that one draw call can sample from; slot 0 is the white
/// texture.
pub const MAX_TEXTURE_SLOTS: usize = 32;

/// One indexed draw call: the vertices to upload, the texture to bind at each
/// slot, and the number of indices to draw.
pub struct DrawCommand {
    pub vertices: Vec<QuadVertex>,
    pub textures: Vec<u32>,
    pub index_count: u32,
}

/// What a `Batch` holds.
pub struct BatchModel {
    pub vertices: Seq<QuadVertex>,
    pub index_count: int,
    pub textures: Seq<u32>,
    pub white_texture: u32,
    pub max_quads: int,
    pub batching: bool,
}

/// The quads accumulated since the last flush, the textures they sample by
/// slot, and whether a `begin` is open.
pub struct Batch {
    vertices: Vec<QuadVertex>,
    index_count: u32,
    textures: Vec<u32>,
    white_texture: u32,
    max_quads: usize,
    batching: bool,
}

impl View for Batch {
    type V = BatchModel;

    closed spec fn view(&self) -> BatchModel {
        BatchModel {
            vertices: self.vertices@,
            index_count: self.index_count as int,
            textures: self.textures@,
            white_texture: self.white_texture,
            max_quads: self.max_quads as int,
            batching: self.batching,
        }
    }
}

/// Whole quads only, at most `max_quads` of them, six indices per quad, the
/// white texture in slot 0, each texture in one slot only, and every vertex
/// sampling a slot of the table.
pub open spec fn batch_inv(m: BatchModel) -> bool {
    &&& 1 <= m.max_quads <= MAX_QUADS_LIMIT
    &&& m.vertices.len() % 4 == 0
    &&& m.vertices.len() <= 4 * m.max_quads
    &&& m.index_count == 6 * (m.vertices.len() / 4)
    &&& 1 <= m.textures.len() <= MAX_TEXTURE_SLOTS
    &&& m.textures[0] == m.white_texture
    &&& m.textures.no_duplicates()
    &&& forall|i: int|
        0 <= i < m.vertices.len() ==> (#[trigger] m.vertices[i]).texture_index < m.textures.len()
}

/// `m` with nothing accumulated and only the white texture in the table.
pub open spec fn reset(m: BatchModel) -> BatchModel {
    BatchModel { vertices: Seq::empty(), index_count: 0, textures: seq![m.white_texture], ..m }
}

/// `c` draws exactly what `m` has accumulated.
pub open spec fn issues(c: DrawCommand, m: BatchModel) -> bool {
    &&& c.vertices@ == m.vertices
    &&& c.textures@ == m.textures
    &&& c.index_count == m.index_count
}

/// `r` is the draw of `m` when `flush` holds, and nothing otherwise.
pub open spec fn flushed(r: Option<DrawCommand>, m: BatchModel, flush: bool) -> bool {
    if flush {
        r is Some && issues(r->Some_0, m)
    } else {
        r is None
    }
}

/// Four more vertices would exceed the capacity.
pub open spec fn vertices_full(m: BatchModel) -> bool {
    m.vertices.len() + 4 > 4 * m.max_quads
}

/// `m` with one more quad of four vertices.
pub open spec fn with_quad(m: BatchModel, quad: Seq<QuadVertex>) -> BatchModel {
    BatchModel { vertices: m.vertices + quad, index_count: m.index_count + 6, ..m }
}

/// The batch after a flat quad: flushed first if full, then the quad,
/// sampling the white texture in slot 0.
pub open spec fn flat_quad_step(m: BatchModel, position: Vec3i, size: Vec2i, color: Color) -> BatchModel {
    let base = if vertices_full(m) {
        reset(m)
    } else {
        m
    };
    with_quad(base, quad_spec(position, size, color, 0))
}

/// A textured quad sampling `texture` must flush first: the vertices are full,
/// or the texture is new and every slot is taken.
pub open spec fn textured_flush_needed(m: BatchModel, texture: u32) -> bool {
    ||| vertices_full(m)
    ||| (!m.textures.contains(texture) && m.textures.len() == MAX_TEXTURE_SLOTS)
}

/// The slot table once `texture` has a slot: unchanged if present, else with
/// `texture` appended.
pub open spec fn table_with(t: Seq<u32>, texture: u32) -> Seq<u32> {
    if t.contains(texture) {
        t
    } else {
        t.push(texture)
    }
}

/// The batch after a quad sampling `texture`: flushed first if needed, the
/// texture's slot found or added, then the quad tinted white with that slot.
pub open spec fn textured_quad_step(m: BatchModel, position: Vec3i, size: Vec2i, texture: u32) -> BatchModel {
    let base = if textured_flush_needed(m, texture) {
        reset(m)
    } else {
        m
    };
    let textures = table_with(base.textures, texture);
    let slot = textures.index_of(texture);
    with_quad(
        BatchModel { textures, ..base },
        quad_spec(position, size, white(), slot as u32),
    )
}

/// The automatic flush comes exactly when the batch already holds
/// `max_quads` quads, and the draw it hands back then covers all of them:
/// `6 * max_quads` indices.
pub proof fn lemma_flush_boundary(m: BatchModel)
    requires
        batch_inv(m),
    ensures
        vertices_full(m) <==> m.vertices.len() == 4 * m.max_quads,
        vertices_full(m) ==> m.index_count == 6 * m.max_quads,
{
}

/// After a textured quad, each of its four vertices samples the slot that
/// holds the drawn texture, and the slot table stays within
/// `MAX_TEXTURE_SLOTS` entries.
pub proof fn lemma_textured_quad_samples_its_texture(
    m: BatchModel,
    position: Vec3i,
    size: Vec2i,
    texture: u32,
)
    requires
        batch_inv(m),
    ensures
        ({
            let after = textured_quad_step(m, position, size, texture);
            &&& after.textures.len() <= MAX_TEXTURE_SLOTS
            &&& forall|k: int|
                after.vertices.len() - 4 <= k < after.vertices.len() ==> after.textures[(
                #[trigger] after.vertices[k]).texture_index as int] == texture
        }),
{
    let base = if textured_flush_needed(m, texture) {
        reset(m)
    } else {
        m
    };
    let textures = table_with(base.textures, texture);
    let slot = textures.index_of(texture);
    assert(textures.contains(texture)) by {
        if !base.textures.contains(texture) {
            assert(textures[textures.len() - 1] == texture);
        }
    }
    assert(0 <= slot < textures.len() && textures[slot] == texture);
    let after = textured_quad_step(m, position, size, texture);
    assert forall|k: int| after.vertices.len() - 4 <= k < after.vertices.len() implies after.textures[(
    #[trigger] after.vertices[k]).texture_index as int] == texture by {
        assert(after.vertices[k] == quad_spec(position, size, white(), slot as u32)[k
            - base.vertices.len()]);
    }
}

/// In a table without duplicates, the slot holding a texture is its index.
proof fn lemma_index_of_unique(t: Seq<u32>, i: int)
    requires
        t.no_duplicates(),
        0 <= i < t.len(),
    ensures
        t.index_of(t[i]) == i,
{
    let j = t.index_of(t[i]);
    assert(t.contains(t[i]));
    assert(0 <= j < t.len() && t[j] == t[i]);
}

/// The slot of `texture` in `textures`, if it has one.
fn find_slot(textures: &Vec<u32>, texture: u32) -> (r: Option<usize>)
    ensures
        match r {
            Some(i) => i < textures@.len() && textures@[i as int] == texture,
            None => !textures@.contains(texture),
        },
{
    let mut i: usize = 0;
    while i < textures.len()
        invariant
            i <= textures@.len(),
            forall|j: int| 0 <= j < i ==> textures@[j] != texture,
        decreases textures@.len() - i,
    {
        if textures[i] == texture {
            return Some(i);
        }
        i = i + 1;
    }
    None
}

impl Batch {
    pub open spec fn well_formed(&self) -> bool {
        batch_inv(self@)
    }

    /// An idle, empty batch holding up to `max_quads` quads, with
    /// `white_texture` in slot 0.
    pub fn new(white_texture: u32, max_quads: usize) -> (r: Batch)
        requires
            1 <= max_quads <= MAX_QUADS_LIMIT,
        ensures
            r.well_formed(),
            r@ == (BatchModel {
                vertices: Seq::empty(),
                index_count: 0,
                textures: seq![white_texture],
                white_texture,
                max_quads: max_quads as int,
                batching: false,
            }),
    {
        let mut textures: Vec<u32> = Vec::new();
        textures.push(white_texture);
        let r = Batch {
            vertices: Vec::new(),
            index_count: 0,
            textures,
            white_texture,
            max_quads,
            batching: false,
        };
        assert(r@.textures =~= seq![white_texture]);
        r
    }

    /// Opens a batch: empties the accumulator and the slot table but for the
    /// white texture.
    pub fn begin(&mut self)
        requires
            old(self).well_formed(),
        ensures
            final(self).well_formed(),
            final(self)@ == (BatchModel { batching: true, ..reset(old(self)@) }),
    {
        self.clear();
        self.batching = true;
    }

    fn clear(&mut self)
        requires
            old(self).well_formed(),
        ensures
            final(self).well_formed(),
            final(self)@ == reset(old(self)@),
    {
        let mut textures: Vec<u32> = Vec::new();
        textures.push(self.white_texture);
        self.textures = textures;
        self.vertices = Vec::new();
        self.index_count = 0;
        assert(self@.textures =~= seq![self.white_texture]);
        assert(self@.vertices =~= Seq::<QuadVertex>::empty());
    }

    /// Hands back everything accumulated as one draw command and resets the
    /// batch as `begin` does, keeping the white texture in slot 0.
    pub fn flush(&mut self) -> (cmd: DrawCommand)
        requires
            old(self).well_formed(),
        ensures
            final(self).well_formed(),
            final(self)@ == reset(old(self)@),
            issues(cmd, old(self)@),
    {
        let mut vertices: Vec<QuadVertex> = Vec::new();
        let mut textures: Vec<u32> = Vec::new();
        textures.push(self.white_texture);
        core::mem::swap(&mut vertices, &mut self.vertices);
        core::mem::swap(&mut textures, &mut self.textures);
        let cmd = DrawCommand { vertices, textures, index_count: self.index_count };
        self.index_count = 0;
        assert(self@.textures =~= seq![self.white_texture]);
        assert(self@.vertices =~= Seq::<QuadVertex>::empty());
        cmd
    }

    /// Closes the batch, handing back what is left to draw, if anything.
    pub fn end(&mut self) -> (r: Option<DrawCommand>)
        requires
            old(self).well_formed(),
            old(self)@.batching,
        ensures
            final(self).well_formed(),
            final(self)@ == (BatchModel { batching: false, ..reset(old(self)@) }),
            flushed(r, old(self)@, old(self)@.vertices.len() > 0),
    {
        let r = if self.vertices.len() > 0 {
            Some(self.flush())
        } else {
            self.clear();
            None
        };
        self.batching = false;
        r
    }

    fn is_full(&self) -> (r: bool)
        requires
            self.well_formed(),
        ensures
            r == vertices_full(self@),
    {
        self.vertices.len() + 4 > self.max_quads * 4
    }

    fn push_quad(&mut self, position: Vec3i, size: Vec2i, color: Color, slot: u32)
        requires
            old(self).well_formed(),
            !vertices_full(old(self)@),
            quad_fits(position, size),
            slot < old(self)@.textures.len(),
        ensures
            final(self).well_formed(),
            final(self)@ == with_quad(old(self)@, quad_spec(position, size, color, slot)),
    {
        let quad = quad_vertices(position, size, color, slot);
        let ghost before = self.vertices@;
        self.vertices.push(quad[0]);
        self.vertices.push(quad[1]);
        self.vertices.push(quad[2]);
        self.vertices.push(quad[3]);
        self.index_count = self.index_count + 6;
        assert(self.vertices@ =~= before + quad_spec(position, size, color, slot));
        assert forall|i: int| 0 <= i < self@.vertices.len() implies (
        #[trigger] self@.vertices[i]).texture_index < self@.textures.len() by {
            if i >= before.len() {
                assert(self@.vertices[i] == quad_spec(position, size, color, slot)[i - before.len()]);
            }
        }
    }

    /// Appends a quad tinted `color` that samples the white texture. When the
    /// batch is full it is flushed first, and that draw is returned.
    pub fn draw_flat_color_quad(&mut self, position: Vec3i, size: Vec3i, color: Color) -> (r: Option<
        DrawCommand,
    >)
        requires
            old(self).well_formed(),
            old(self)@.batching,
            quad_fits(position, Vec2i { x: size.x, y: size.y }),
        ensures
            final(self).well_formed(),
            final(self)@ == flat_quad_step(
                old(self)@,
                position,
                Vec2i { x: size.x, y: size.y },
                color,
            ),
            flushed(r, old(self)@, vertices_full(old(self)@)),
    {
        let r = if self.is_full() {
            Some(self.flush())
        } else {
            None
        };
        self.push_quad(position, Vec2i { x: size.x, y: size.y }, color, 0);
        r
    }

    /// Appends a white-tinted quad that samples `texture`, uploading the
    /// texture through `upload` first if it has no GPU handle yet. The texture
    /// reuses its slot if the table has it and takes the next slot otherwise.
    /// When the vertices are full, or the texture is new and every slot is
    /// taken, the batch is flushed first and that draw is returned.
    pub fn draw_quad<F: FnOnce(&Texture) -> u32>(
        &mut self,
        position: Vec3i,
        size: Vec2i,
        texture: &mut Texture,
        upload: F,
    ) -> (r: Option<DrawCommand>)
        requires
            old(self).well_formed(),
            old(self)@.batching,
            quad_fits(position, size),
            upload.requires((&*old(texture),)),
        ensures
            init_result(old(texture)@, final(texture)@, old(texture)@.renderer_id is None),
            old(texture)@.renderer_id is None ==> upload.ensures(
                (&*old(texture),),
                final(texture)@.renderer_id->Some_0,
            ),
            final(self).well_formed(),
            final(self)@ == textured_quad_step(
                old(self)@,
                position,
                size,
                final(texture)@.renderer_id->Some_0,
            ),
            flushed(r, old(self)@, textured_flush_needed(old(self)@, final(texture)@.renderer_id->Some_0)),
    {
        texture.init(upload);
        let id = texture.get_renderer_id().unwrap();
        let found = find_slot(&self.textures, id);
        let r = if self.is_full() || (found.is_none() && self.textures.len() == MAX_TEXTURE_SLOTS) {
            Some(self.flush())
        } else {
            None
        };
        let ghost base = self@;
        let slot = match find_slot(&self.textures, id) {
            Some(s) => {
                proof {
                    lemma_index_of_unique(self@.textures, s as int);
                }
                s
            },
            None => {
                self.textures.push(id);
                proof {
                    let t = self@.textures;
                    assert(t.last() == id);
                    assert(t.no_duplicates()) by {
                        assert forall|i: int, j: int|
                            0 <= i < t.len() && 0 <= j < t.len() && i != j implies t[i] != t[j] by {
                            if j == t.len() - 1 {
                                assert(base.textures[i] == t[i]);
                            } else if i == t.len() - 1 {
                                assert(base.textures[j] == t[j]);
                            } else {
                                assert(base.textures[i] == t[i] && base.textures[j] == t[j]);
                            }
                        }
                    }
                    assert(t[0] == base.textures[0]);
                    lemma_index_of_unique(t, t.len() - 1);
                }
                self.textures.len() - 1
            },
        };
        assert(self@.textures == table_with(base.textures, id));
        self.push_quad(position, size, white_color(), slot as u32);
        r
    }

    pub fn vertices(&self) -> (r: &Vec<QuadVertex>)
        ensures
            r@ == self@.vertices,
    {
        &self.vertices
    }

    pub fn index_count(&self) -> (r: u32)
        ensures
            r == self@.index_count,
    {
        self.index_count
    }

    pub fn textures(&self) -> (r: &Vec<u32>)
        ensures
            r@ == self@.textures,
    {
        &self.textures
    }

    pub fn is_batching(&self) -> (r: bool)
        ensures
            r == self@.batching,
    {
        self.batching
    }

    pub fn max_quads(&self) -> (r: usize)
        ensures
            r == self@.max_quads,
    {
        self.max_quads
    }

    pub fn white_texture(&self) -> (r: u32)
        ensures
            r == self@.white_texture,
    {
        self.white_texture
    }
}

/// Bytes to reserve in the vertex buffer for `max_quads` quads of vertices of
/// `stride` bytes: the buffer is allocated once and then only overwritten.
pub fn vertex_buffer_capacity(max_quads: usize, stride: i32) -> (r: i32)
    requires
        1 <= stride,
        4 * max_quads * stride <= i32::MAX,
    ensures
        r == 4 * max_quads * stride,
{
    proof {
        assert(4 * max_quads <= 4 * max_quads * stride) by (nonlinear_arith)
            requires
                1 <= stride,
        ;
    }
    let vertices = 4 * (max_quads as i32);
    proof {
        assert(vertices * stride == 4 * max_quads * stride) by (nonlinear_arith)
            requires
                vertices == 4 * max_quads,
        ;
    }
    vertices * stride
}

/// Opaque white.
pub fn white_color() -> (r: Color)
    ensures
        r == white(),
{
    Color { r: 255, g: 255, b: 255, a: 255 }
}

/// The GL texture unit that slot `slot` is bound to.
pub fn texture_unit(slot: u32) -> (r: u32)
    requires
        slot < MAX_TEXTURE_SLOTS,
    ensures
        r == GL_TEXTURE0 + slot,
{
    GL_TEXTURE0 + slot
}

/// The values of the shader's sampler array: entry `i` reads texture unit `i`.
pub fn texture_sampler_slots() -> (r: Vec<i32>)
    ensures
        r@.len() == MAX_TEXTURE_SLOTS,
        forall|i: int| 0 <= i < MAX_TEXTURE_SLOTS ==> #[trigger] r@[i] == i,
{
    let mut samplers: Vec<i32> = Vec::new();
    let mut i: i32 = 0;
    while i < MAX_TEXTURE_SLOTS as i32
        invariant
            0 <= i <= MAX_TEXTURE_SLOTS,
            samplers@.len() == i,
            forall|j: int| 0 <= j < i ==> #[trigger] samplers@[j] == j,
        decreases MAX_TEXTURE_SLOTS - i,
    {
        samplers.push(i);
        i = i + 1;
    }
    samplers
}

} // verus!
