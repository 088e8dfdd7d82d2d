use std::cell::Cell;

use adze::texture::{
    PixelFormat, Texture, TextureType, GL_R8, GL_RED, GL_RGB, GL_RGB8, GL_RGBA, GL_RGBA8,
};

#[test]
fn init_twice_allocates_one_handle() {
    let uploads = Cell::new(0u32);
    let mut texture = Texture::new("planks.png".to_string());
    assert_eq!(texture.get_renderer_id(), None);
    let upload = |_: &Texture| {
        uploads.set(uploads.get() + 1);
        40 + uploads.get()
    };
    assert!(texture.init(upload));
    assert!(!texture.init(upload));
    assert_eq!(uploads.get(), 1);
    assert_eq!(texture.get_renderer_id(), Some(41));
}

#[test]
fn init_hands_the_texture_to_the_upload() {
    let mut texture = Texture::from_data(vec![1, 2, 3, 4], 1, 1, GL_RGBA8, GL_RGBA);
    let seen = Cell::new(0usize);
    texture.init(|t: &Texture| {
        seen.set(t.get_data().len());
        3
    });
    assert_eq!(seen.get(), 4);
    assert_eq!(texture.get_renderer_id(), Some(3));
    assert_eq!(texture.get_data(), &vec![1, 2, 3, 4]);
}

#[test]
fn format_from_channel_count() {
    assert_eq!(PixelFormat::from_channel_count(1), PixelFormat::R8);
    assert_eq!(PixelFormat::from_channel_count(3), PixelFormat::Rgb8);
    assert_eq!(PixelFormat::from_channel_count(4), PixelFormat::Rgba8);
    assert_eq!(PixelFormat::from_channel_count(2), PixelFormat::Rgb8);
    assert_eq!(PixelFormat::from_channel_count(0), PixelFormat::Rgb8);
}

#[test]
fn format_gl_enums() {
    assert_eq!(PixelFormat::Rgb8.internal_format(), GL_RGB8);
    assert_eq!(PixelFormat::Rgb8.data_format(), GL_RGB);
    assert_eq!(PixelFormat::Rgba8.internal_format(), GL_RGBA8);
    assert_eq!(PixelFormat::Rgba8.data_format(), GL_RGBA);
    assert_eq!(PixelFormat::R8.internal_format(), GL_R8);
    assert_eq!(PixelFormat::R8.data_format(), GL_RED);
    assert_eq!(GL_RGBA8, 0x8058);
    assert_eq!(PixelFormat::Rgb8.bytes_per_pixel(), 3);
    assert_eq!(PixelFormat::Rgba8.bytes_per_pixel(), 4);
    assert_eq!(PixelFormat::R8.bytes_per_pixel(), 1);
}

#[test]
fn constructors_leave_texture_without_handle() {
    let d = Texture::from_dimensions(8, 4);
    assert_eq!(d.get_renderer_id(), None);
    assert_eq!((d.get_width(), d.get_height()), (8, 4));
    assert_eq!(d.get_internal_format(), GL_RGBA8);
    assert_eq!(d.get_data_format(), GL_RGBA);
    assert!(d.get_data().is_empty());
    assert_eq!(d.get_path(), "");

    let p = Texture::new("assets/planks.png".to_string());
    assert_eq!(p.get_path(), "assets/planks.png");
    assert_eq!((p.get_width(), p.get_height()), (0, 0));
}

#[test]
fn setters_change_only_their_field() {
    let mut t = Texture::from_dimensions(2, 2);
    t.set_width(16);
    t.set_height(32);
    t.set_internal_format(GL_RGB8);
    t.set_data_format(GL_RGB);
    t.set_path("x.png".to_string());
    t.set_data(vec![9; 12]);
    t.set_renderer_id(5);
    assert_eq!((t.get_width(), t.get_height()), (16, 32));
    assert_eq!(t.get_internal_format(), GL_RGB8);
    assert_eq!(t.get_data_format(), GL_RGB);
    assert_eq!(t.get_path(), "x.png");
    assert_eq!(t.get_data().len(), 12);
    assert_eq!(t.get_renderer_id(), Some(5));
}

#[test]
fn texture_type_defaults_to_diffuse() {
    let mut t = Texture::new("planksSpec.png".to_string());
    assert_eq!(t.get_texture_type(), TextureType::Diffuse);
    t.set_texture_type(TextureType::Specular);
    assert_eq!(t.get_texture_type(), TextureType::Specular);
    assert_eq!(t.get_path(), "planksSpec.png");
}
