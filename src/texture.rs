//! Textures: pixel data, its format, and a GPU handle allocated lazily on
//! first use.
use vstd::prelude::*;

verus! {

/// GL sized internal format: three 8-bit channels.
pub const GL_RGB8: u32 = 0x8051;

/// GL sized internal format: four 8-bit channels.
pub const GL_RGBA8: u32 = 0x8058;

/// GL sized internal format: one 8-bit channel.
pub const GL_R8: u32 = 0x8229;

/// GL pixel data format: red, green, blue.
pub const GL_RGB: u32 = 0x1907;

/// GL pixel data format: red, green, blue, alpha.
pub const GL_RGBA: u32 = 0x1908;

/// GL pixel data format: red only.
pub const GL_RED: u32 = 0x1903;

/// GL enum of the first texture unit; unit `n` is `GL_TEXTURE0 + n`.
pub const GL_TEXTURE0: u32 = 0x84C0;

/// What a texture is used for when lighting a mesh.
#[derive(Clone, Copy, Debug, PartialEq, Eq, Structural)]
pub enum TextureType {
    Diffuse,
    Specular,
}

/// The pixel layouts a texture can be uploaded with.
#[derive(Clone, Copy, Debug, PartialEq, Eq, Structural)]
pub enum PixelFormat {
    Rgb8,
    Rgba8,
    R8,
}

/// The format chosen for decoded pixels with `channels` channels: one channel
/// is single-channel, four is RGBA, anything else falls back to RGB.
pub open spec fn format_for_channels(channels: u8) -> PixelFormat {
    if channels == 1 {
        PixelFormat::R8
    } else if channels == 4 {
        PixelFormat::Rgba8
    } else {
        PixelFormat::Rgb8
    }
}

pub open spec fn spec_internal_format(f: PixelFormat) -> u32 {
    match f {
        PixelFormat::Rgb8 => GL_RGB8,
        PixelFormat::Rgba8 => GL_RGBA8,
        PixelFormat::R8 => GL_R8,
    }
}

pub open spec fn spec_data_format(f: PixelFormat) -> u32 {
    match f {
        PixelFormat::Rgb8 => GL_RGB,
        PixelFormat::Rgba8 => GL_RGBA,
        PixelFormat::R8 => GL_RED,
    }
}

pub open spec fn spec_bytes_per_pixel(f: PixelFormat) -> int {
    match f {
        PixelFormat::Rgb8 => 3,
        PixelFormat::Rgba8 => 4,
        PixelFormat::R8 => 1,
    }
}

impl PixelFormat {
    /// Picks the upload format from the channel count that the image decoder
    /// reports; unrecognised counts fall back to RGB.
    pub fn from_channel_count(channels: u8) -> (r: PixelFormat)
        ensures
            r == format_for_channels(channels),
    {
        if channels == 1 {
            PixelFormat::R8
        } else if channels == 4 {
            PixelFormat::Rgba8
        } else {
            PixelFormat::Rgb8
        }
    }

    /// The GL sized internal format.
    pub fn internal_format(&self) -> (r: u32)
        ensures
            r == spec_internal_format(*self),
    {
        match self {
            PixelFormat::Rgb8 => GL_RGB8,
            PixelFormat::Rgba8 => GL_RGBA8,
            PixelFormat::R8 => GL_R8,
        }
    }

    /// The GL pixel data format.
    pub fn data_format(&self) -> (r: u32)
        ensures
            r == spec_data_format(*self),
    {
        match self {
            PixelFormat::Rgb8 => GL_RGB,
            PixelFormat::Rgba8 => GL_RGBA,
            PixelFormat::R8 => GL_RED,
        }
    }

    /// Bytes taken by one pixel.
    pub fn bytes_per_pixel(&self) -> (r: u32)
        ensures
            r == spec_bytes_per_pixel(*self),
    {
        match self {
            PixelFormat::Rgb8 => 3,
            PixelFormat::Rgba8 => 4,
            PixelFormat::R8 => 1,
        }
    }
}

/// What a `Texture` holds.
pub struct TextureModel {
    pub renderer_id: Option<u32>,
    pub path: Seq<char>,
    pub width: u32,
    pub height: u32,
    pub data: Seq<u8>,
    pub internal_format: u32,
    pub data_format: u32,
    pub texture_type: TextureType,
}

/// A texture's source (a path, or pixel data with its size and format) and
/// its GPU handle, which stays absent until the texture is first used.
pub struct Texture {
    renderer_id: Option<u32>,
    path: String,
    width: u32,
    height: u32,
    data: Vec<u8>,
    internal_format: u32,
    data_format: u32,
    texture_type: TextureType,
}

impl View for Texture {
    type V = TextureModel;

    closed spec fn view(&self) -> TextureModel {
        TextureModel {
            renderer_id: self.renderer_id,
            path: self.path@,
            width: self.width,
            height: self.height,
            data: self.data@,
            internal_format: self.internal_format,
            data_format: self.data_format,
            texture_type: self.texture_type,
        }
    }
}

/// `after` is `before` once `init` has run and reported `allocated`: a texture
/// that already has a handle is left as it is and nothing is allocated; one
/// without gets a handle and nothing else changes.
pub open spec fn init_result(before: TextureModel, after: TextureModel, allocated: bool) -> bool {
    &&& allocated == (before.renderer_id is None)
    &&& after.renderer_id is Some
    &&& before.renderer_id is Some ==> after == before
    &&& after == TextureModel { renderer_id: after.renderer_id, ..before }
}

/// Initialising a texture twice allocates exactly one GPU handle: the second
/// call allocates nothing and changes nothing.
pub proof fn lemma_init_idempotent(
    t0: TextureModel,
    t1: TextureModel,
    first: bool,
    t2: TextureModel,
    second: bool,
)
    requires
        init_result(t0, t1, first),
        init_result(t1, t2, second),
    ensures
        first == (t0.renderer_id is None),
        !second,
        t2 == t1,
        t2.renderer_id is Some,
{
}

impl Texture {
    /// A texture to be loaded from `path` on first use.
    pub fn new(path: String) -> (r: Texture)
        ensures
            r@ == (TextureModel {
                renderer_id: None,
                path: path@,
                width: 0,
                height: 0,
                data: Seq::empty(),
                internal_format: 0,
                data_format: 0,
                texture_type: TextureType::Diffuse,
            }),
    {
        Texture {
            renderer_id: None,
            path,
            width: 0,
            height: 0,
            data: Vec::new(),
            internal_format: 0,
            data_format: 0,
            texture_type: TextureType::Diffuse,
        }
    }

    /// An RGBA texture of the given size with no pixel data yet.
    pub fn from_dimensions(width: u32, height: u32) -> (r: Texture)
        ensures
            r@ == (TextureModel {
                renderer_id: None,
                path: Seq::empty(),
                width,
                height,
                data: Seq::empty(),
                internal_format: GL_RGBA8,
                data_format: GL_RGBA,
                texture_type: TextureType::Diffuse,
            }),
    {
        Texture {
            renderer_id: None,
            path: String::new(),
            width,
            height,
            data: Vec::new(),
            internal_format: GL_RGBA8,
            data_format: GL_RGBA,
            texture_type: TextureType::Diffuse,
        }
    }

    /// A texture holding `data`, of the given size and GL formats.
    pub fn from_data(
        data: Vec<u8>,
        width: u32,
        height: u32,
        internal_format: u32,
        data_format: u32,
    ) -> (r: Texture)
        ensures
            r@ == (TextureModel {
                renderer_id: None,
                path: Seq::empty(),
                width,
                height,
                data: data@,
                internal_format,
                data_format,
                texture_type: TextureType::Diffuse,
            }),
    {
        Texture {
            renderer_id: None,
            path: String::new(),
            width,
            height,
            data,
            internal_format,
            data_format,
            texture_type: TextureType::Diffuse,
        }
    }

    /// Gives the texture its GPU handle if it has none: `upload` is called
    /// at most once, only then, and the handle it returns is kept. Returns
    /// whether a handle was allocated.
    pub fn init<F: FnOnce(&Texture) -> u32>(&mut self, upload: F) -> (allocated: bool)
        requires
            upload.requires((&*old(self),)),
        ensures
            init_result(old(self)@, final(self)@, allocated),
            allocated ==> upload.ensures((&*old(self),), final(self)@.renderer_id->Some_0),
    {
        if self.renderer_id.is_none() {
            let id = upload(self);
            self.renderer_id = Some(id);
            true
        } else {
            false
        }
    }

    pub fn set_renderer_id(&mut self, renderer_id: u32)
        ensures
            final(self)@ == (TextureModel { renderer_id: Some(renderer_id), ..old(self)@ }),
    {
        self.renderer_id = Some(renderer_id);
    }

    pub fn get_renderer_id(&self) -> (r: Option<u32>)
        ensures
            r == self@.renderer_id,
    {
        self.renderer_id
    }

    pub fn set_path(&mut self, path: String)
        ensures
            final(self)@ == (TextureModel { path: path@, ..old(self)@ }),
    {
        self.path = path;
    }

    pub fn get_path(&self) -> (r: &String)
        ensures
            r@ == self@.path,
    {
        &self.path
    }

    pub fn set_data(&mut self, data: Vec<u8>)
        ensures
            final(self)@ == (TextureModel { data: data@, ..old(self)@ }),
    {
        self.data = data;
    }

    pub fn get_data(&self) -> (r: &Vec<u8>)
        ensures
            r@ == self@.data,
    {
        &self.data
    }

    pub fn get_width(&self) -> (r: u32)
        ensures
            r == self@.width,
    {
        self.width
    }

    pub fn set_width(&mut self, width: u32)
        ensures
            final(self)@ == (TextureModel { width, ..old(self)@ }),
    {
        self.width = width;
    }

    pub fn get_height(&self) -> (r: u32)
        ensures
            r == self@.height,
    {
        self.height
    }

    pub fn set_height(&mut self, height: u32)
        ensures
            final(self)@ == (TextureModel { height, ..old(self)@ }),
    {
        self.height = height;
    }

    pub fn get_internal_format(&self) -> (r: u32)
        ensures
            r == self@.internal_format,
    {
        self.internal_format
    }

    pub fn set_internal_format(&mut self, internal_format: u32)
        ensures
            final(self)@ == (TextureModel { internal_format, ..old(self)@ }),
    {
        self.internal_format = internal_format;
    }

    pub fn get_data_format(&self) -> (r: u32)
        ensures
            r == self@.data_format,
    {
        self.data_format
    }

    /// What the texture is used for; new textures are diffuse.
    pub fn get_texture_type(&self) -> (r: TextureType)
        ensures
            r == self@.texture_type,
    {
        self.texture_type
    }

    pub fn set_texture_type(&mut self, texture_type: TextureType)
        ensures
            final(self)@ == (TextureModel { texture_type, ..old(self)@ }),
    {
        self.texture_type = texture_type;
    }

    pub fn set_data_format(&mut self, data_format: u32)
        ensures
            final(self)@ == (TextureModel { data_format, ..old(self)@ }),
    {
        self.data_format = data_format;
    }
}

} // verus!
