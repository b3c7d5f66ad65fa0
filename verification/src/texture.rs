//! Textures: decoded image pixels turned into one GPU upload, plus the
//! bind command used before a draw call.
//!
//! Decoding an image file is the shell's work; it hands the library the
//! pixel buffer and the dimensions. Construction validates the buffer
//! before anything is allocated: a texture that fails validation produces
//! no upload at all, so a failed load never leaves a partial allocation
//! behind.

use vstd::prelude::*;

use crate::commands::MinFilter;
use crate::commands::RenderCommand;
use crate::commands::TextureUpload;
use crate::commands::WrapMode;

verus! {

/// Why a pixel buffer was rejected.
#[derive(Clone, Copy, PartialEq, Eq, Structural, Debug)]
pub enum TextureError {
    /// The buffer does not hold exactly three bytes per pixel.
    PixelSizeMismatch,
}

/// A texture object: its raw handle, its dimensions, and whether binding it
/// is currently enabled. The pixel data itself lives only in the upload
/// produced at construction; the engine does not keep a CPU copy.
#[derive(Clone, Copy, PartialEq, Eq, Structural, Debug)]
pub struct Texture {
    pub id: u32,
    pub width: u32,
    pub height: u32,
    pub is_texture_activated: bool,
}

impl Texture {
    /// Builds a texture from decoded RGB8 pixels. Returns the texture and
    /// its one-time upload, or an error if the buffer is not exactly
    /// `3 * width * height` bytes. On error nothing is produced that could
    /// allocate graphics memory.
    pub fn from_pixels(width: u32, height: u32, pixels: Vec<u8>) -> (r: Result<
        (Texture, TextureUpload),
        TextureError,
    >)
        ensures
            pixels@.len() == 3 * width * height <==> r is Ok,
            r matches Ok((texture, upload)) ==> {
                &&& texture == (Texture { id: 0, width, height, is_texture_activated: true })
                &&& upload.width == width
                &&& upload.height == height
                &&& upload.pixels@ == pixels@
                &&& upload.wrap_s == WrapMode::MirroredRepeat
                &&& upload.wrap_t == WrapMode::MirroredRepeat
                &&& upload.min_filter == MinFilter::LinearMipmapLinear
                &&& upload.generate_mipmaps
            },
            r matches Err(e) ==> e == TextureError::PixelSizeMismatch,
    {
        proof {
            assert(3 * (width as int) * (height as int) < u128::MAX) by (nonlinear_arith)
                requires
                    width as int <= 0xFFFF_FFFF,
                    height as int <= 0xFFFF_FFFF,
            ;
        }
        let expected: u128 = 3u128 * (width as u128) * (height as u128);
        if (pixels.len() as u128) != expected {
            return Result::Err(TextureError::PixelSizeMismatch);
        }
        let texture = Texture { id: 0, width, height, is_texture_activated: true };
        let upload = TextureUpload {
            width,
            height,
            pixels,
            wrap_s: WrapMode::MirroredRepeat,
            wrap_t: WrapMode::MirroredRepeat,
            min_filter: MinFilter::LinearMipmapLinear,
            generate_mipmaps: true,
        };
        Result::Ok((texture, upload))
    }

    /// Records the raw handle that the shell allocated when it executed the
    /// upload.
    pub fn attach(&mut self, id: u32)
        ensures
            *final(self) == (Texture { id, ..*old(self) }),
    {
        self.id = id;
    }

    /// Disables binding this texture; draws fall back to the null texture.
    pub fn set_texture_off(&mut self)
        ensures
            *final(self) == (Texture { is_texture_activated: false, ..*old(self) }),
    {
        self.is_texture_activated = false;
    }

    /// Enables binding this texture again.
    pub fn set_texture_true(&mut self)
        ensures
            *final(self) == (Texture { is_texture_activated: true, ..*old(self) }),
    {
        self.is_texture_activated = true;
    }

    /// The bind command issued before a draw call: this texture when it is
    /// enabled, the null texture otherwise.
    pub fn render(&self) -> (r: RenderCommand)
        ensures
            self.is_texture_activated ==> r == (RenderCommand::BindTexture { texture: self.id }),
            !self.is_texture_activated ==> r == (RenderCommand::BindTexture { texture: 0 }),
    {
        let mut texture_id: u32 = 0;
        if self.is_texture_activated {
            texture_id = self.id;
        }
        RenderCommand::BindTexture { texture: texture_id }
    }
}

} // verus!
