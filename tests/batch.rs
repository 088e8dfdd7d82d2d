use adze::batch::{
    texture_sampler_slots, texture_unit, vertex_buffer_capacity, white_color, Batch, DrawCommand,
    MAX_INDICES, MAX_QUADS, MAX_TEXTURE_SLOTS, MAX_VERTICES,
};
use adze::quad::{Color, Vec2i, Vec3i};
use adze::texture::Texture;

const WHITE: u32 = 1;

fn origin() -> Vec3i {
    Vec3i { x: 0, y: 0, z: 0 }
}

fn red() -> Color {
    Color { r: 255, g: 0, b: 0, a: 255 }
}

fn flat(batch: &mut Batch) -> Option<DrawCommand> {
    batch.draw_flat_color_quad(origin(), Vec3i { x: 1, y: 1, z: 0 }, red())
}

fn textured(batch: &mut Batch, texture: &mut Texture, handle: u32) -> Option<DrawCommand> {
    batch.draw_quad(origin(), Vec2i { x: 1, y: 1 }, texture, move |_: &Texture| handle)
}

#[test]
fn capacity_constants() {
    assert_eq!(MAX_QUADS, 10000);
    assert_eq!(MAX_VERTICES, 40000);
    assert_eq!(MAX_INDICES, 60000);
    assert_eq!(MAX_TEXTURE_SLOTS, 32);
}

#[test]
fn new_batch_is_idle_and_empty() {
    let batch = Batch::new(WHITE, MAX_QUADS);
    assert!(!batch.is_batching());
    assert!(batch.vertices().is_empty());
    assert_eq!(batch.index_count(), 0);
    assert_eq!(batch.textures(), &vec![WHITE]);
    assert_eq!(batch.white_texture(), WHITE);
    assert_eq!(batch.max_quads(), MAX_QUADS);
}

#[test]
fn flat_quad_corners_and_attributes() {
    let mut batch = Batch::new(WHITE, MAX_QUADS);
    batch.begin();
    let color = Color { r: 1, g: 2, b: 3, a: 4 };
    let r = batch.draw_flat_color_quad(origin(), Vec3i { x: 2, y: 3, z: 0 }, color);
    assert!(r.is_none());
    let positions: Vec<(i32, i32, i32)> = batch
        .vertices()
        .iter()
        .map(|v| (v.position.x, v.position.y, v.position.z))
        .collect();
    assert_eq!(positions, vec![(0, 0, 0), (2, 0, 0), (2, 3, 0), (0, 3, 0)]);
    assert!(batch.vertices().iter().all(|v| v.color == color && v.texture_index == 0));
    assert_eq!(batch.index_count(), 6);
    assert_eq!(batch.textures(), &vec![WHITE]);
}

#[test]
fn flush_resets_batch_and_returns_its_contents() {
    let mut batch = Batch::new(WHITE, MAX_QUADS);
    batch.begin();
    let mut a = Texture::new("a.png".to_string());
    let mut b = Texture::new("b.png".to_string());
    flat(&mut batch);
    textured(&mut batch, &mut a, 20);
    textured(&mut batch, &mut b, 30);
    let cmd = batch.flush();
    assert_eq!(cmd.vertices.len(), 12);
    assert_eq!(cmd.index_count, 18);
    assert_eq!(cmd.textures, vec![WHITE, 20, 30]);
    assert!(batch.vertices().is_empty());
    assert_eq!(batch.index_count(), 0);
    assert_eq!(batch.textures(), &vec![WHITE]);
    assert!(batch.is_batching());
}

#[test]
fn overflowing_quad_flushes_once_and_end_draws_the_rest() {
    let mut batch = Batch::new(WHITE, MAX_QUADS);
    batch.begin();
    let mut draws: Vec<DrawCommand> = Vec::new();
    for _ in 0..MAX_QUADS + 1 {
        if let Some(cmd) = flat(&mut batch) {
            draws.push(cmd);
        }
    }
    assert_eq!(draws.len(), 1);
    assert_eq!(draws[0].index_count, 60000);
    assert_eq!(draws[0].vertices.len(), MAX_VERTICES);
    if let Some(cmd) = batch.end() {
        draws.push(cmd);
    }
    assert_eq!(draws.len(), 2);
    assert_eq!(draws[1].index_count, 6);
    assert_eq!(draws[1].vertices.len(), 4);
    assert!(!batch.is_batching());
}

#[test]
fn exactly_full_batch_draws_once_at_end() {
    let mut batch = Batch::new(WHITE, 3);
    batch.begin();
    for _ in 0..3 {
        assert!(flat(&mut batch).is_none());
    }
    let cmd = batch.end().unwrap();
    assert_eq!(cmd.index_count, 18);
}

#[test]
fn end_of_empty_batch_draws_nothing() {
    let mut batch = Batch::new(WHITE, MAX_QUADS);
    batch.begin();
    assert!(batch.end().is_none());
    assert!(!batch.is_batching());
}

#[test]
fn begin_discards_what_was_accumulated() {
    let mut batch = Batch::new(WHITE, MAX_QUADS);
    batch.begin();
    flat(&mut batch);
    batch.begin();
    assert!(batch.vertices().is_empty());
    assert_eq!(batch.index_count(), 0);
}

#[test]
fn three_textured_quads_with_two_textures_use_three_slots() {
    let mut batch = Batch::new(WHITE, MAX_QUADS);
    batch.begin();
    let mut tex_a = Texture::new("a.png".to_string());
    let mut tex_b = Texture::new("b.png".to_string());
    assert!(textured(&mut batch, &mut tex_a, 11).is_none());
    assert!(textured(&mut batch, &mut tex_b, 12).is_none());
    assert!(textured(&mut batch, &mut tex_a, 99).is_none());
    assert_eq!(batch.textures(), &vec![WHITE, 11, 12]);
    let slots: Vec<u32> = batch.vertices().iter().map(|v| v.texture_index).collect();
    assert_eq!(slots, vec![1, 1, 1, 1, 2, 2, 2, 2, 1, 1, 1, 1]);
    assert_eq!(tex_a.get_renderer_id(), Some(11));
    assert!(batch.vertices().iter().all(|v| v.color == white_color()));
    assert_eq!(batch.index_count(), 18);
}

#[test]
fn white_texture_reuses_slot_zero() {
    let mut batch = Batch::new(WHITE, MAX_QUADS);
    batch.begin();
    let mut white = Texture::new(String::new());
    white.set_renderer_id(WHITE);
    assert!(textured(&mut batch, &mut white, 77).is_none());
    assert_eq!(batch.textures(), &vec![WHITE]);
    assert!(batch.vertices().iter().all(|v| v.texture_index == 0));
}

#[test]
fn new_texture_with_all_slots_taken_flushes_first() {
    let mut batch = Batch::new(WHITE, MAX_QUADS);
    batch.begin();
    let mut textures: Vec<Texture> = (0..MAX_TEXTURE_SLOTS).map(|_| Texture::new(String::new())).collect();
    for (i, t) in textures.iter_mut().take(MAX_TEXTURE_SLOTS - 1).enumerate() {
        assert!(textured(&mut batch, t, 100 + i as u32).is_none());
    }
    assert_eq!(batch.textures().len(), MAX_TEXTURE_SLOTS);
    let mut again = Texture::new(String::new());
    again.set_renderer_id(100);
    assert!(textured(&mut batch, &mut again, 0).is_none());
    let last = textures.last_mut().unwrap();
    let cmd = textured(&mut batch, last, 500).unwrap();
    assert_eq!(cmd.textures.len(), MAX_TEXTURE_SLOTS);
    assert_eq!(cmd.index_count, 6 * 32);
    assert_eq!(batch.textures(), &vec![WHITE, 500]);
    let slots: Vec<u32> = batch.vertices().iter().map(|v| v.texture_index).collect();
    assert_eq!(slots, vec![1, 1, 1, 1]);
}

#[test]
fn textured_quad_overflowing_vertices_flushes_first() {
    let mut batch = Batch::new(WHITE, 1);
    batch.begin();
    let mut a = Texture::new(String::new());
    assert!(textured(&mut batch, &mut a, 5).is_none());
    let cmd = textured(&mut batch, &mut a, 6).unwrap();
    assert_eq!(cmd.textures, vec![WHITE, 5]);
    assert_eq!(cmd.index_count, 6);
    assert_eq!(batch.textures(), &vec![WHITE, 5]);
    assert_eq!(batch.vertices()[0].texture_index, 1);
}

#[test]
fn texture_units_and_samplers() {
    assert_eq!(texture_unit(0), 0x84C0);
    assert_eq!(texture_unit(31), 0x84C0 + 31);
    let samplers = texture_sampler_slots();
    assert_eq!(samplers, (0..32).collect::<Vec<i32>>());
}

#[test]
fn vertex_buffer_capacity_in_bytes() {
    assert_eq!(vertex_buffer_capacity(MAX_QUADS, 40), 1_600_000);
    assert_eq!(vertex_buffer_capacity(1, 1), 4);
}
