//! Handles to image data that a renderer owns.

use vstd::prelude::*;

verus! {

/// A handle to a decoded image. The pixels belong to the renderer; the library
/// stores the handle and hands it back with each draw call.
///
/// `None` is the empty texture, the stand-in for an image that could not be
/// had. `Some(slot)` names the slot under which the renderer keeps the image.
#[derive(Debug, Clone, Copy, PartialEq, Eq, Structural)]
pub struct Texture {
    pub texture: Option<u32>,
}

/// Why an image could not be loaded.
#[derive(Debug, Clone, Copy, PartialEq, Eq, Structural)]
pub enum LoadError {
    /// There is no such file, or it cannot be read.
    Missing,
    /// The file does not hold an image that can be decoded.
    Malformed,
}

impl Texture {
    /// Whether this is the empty texture.
    pub open spec fn is_empty(self) -> bool {
        self.texture is None
    }

    /// The handle that stands for the outcome of a load.
    pub open spec fn of(loaded: Result<u32, LoadError>) -> Texture {
        match loaded {
            Ok(slot) => Texture { texture: Some(slot) },
            Err(_) => Texture { texture: None },
        }
    }

    /// Turns the outcome of a load into a handle: the slot of the decoded
    /// image where the load succeeded, the empty texture where it failed. A
    /// failed load is never passed on as an error, whatever its reason.
    pub fn load(loaded: Result<u32, LoadError>) -> (texture: Texture)
        ensures
            texture == Texture::of(loaded),
            loaded is Err <==> texture.is_empty(),
    {
        match loaded {
            Ok(slot) => Texture { texture: Some(slot) },
            Err(_) => Texture::default(),
        }
    }
}

impl Default for Texture {
    /// The empty texture.
    fn default() -> (texture: Texture)
        ensures
            texture.is_empty(),
    {
        Texture { texture: None }
    }
}

/// A colour that a texture is multiplied with when it is drawn: red, green,
/// blue and opacity, each from 0 to 255.
#[derive(Debug, Clone, Copy, PartialEq, Eq, Structural)]
pub struct Tint {
    pub r: u8,
    pub g: u8,
    pub b: u8,
    pub a: u8,
}

impl Tint {
    /// Opaque white, which leaves a texture as it is.
    pub open spec fn opaque_white() -> Tint {
        Tint { r: 255, g: 255, b: 255, a: 255 }
    }

    /// Opaque white, which leaves a texture as it is.
    pub fn white() -> (tint: Tint)
        ensures
            tint == Tint::opaque_white(),
    {
        Tint { r: 255, g: 255, b: 255, a: 255 }
    }
}

} // verus!
