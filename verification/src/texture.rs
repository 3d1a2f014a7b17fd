//! The texture store: it owns the device-resident copy of the source
//! image and the device parameter buffer, and mediates every write to
//! them.
//!
//! The store models the device objects by what the render logic reads of
//! them: the resident texture's dimensions, the record last written to
//! the parameter buffer, and the device-reported texture limit.  The
//! embedding performs the matching allocations and transfers, one for
//! one, when a verified call here succeeds.

use vstd::prelude::*;
use crate::error::RenderError;
use crate::params::AdjustmentParams;
use crate::size::ImageSize;

verus! {

/// Owner of the device-resident source texture and parameter buffer.
#[verifier::ext_equal]
pub struct TextureManager {
    /// Dimensions of the resident source texture; `None` while the store
    /// is empty.  Replaced wholesale on every successful load.
    pub source_texture: Option<ImageSize>,
    /// The record held by the device parameter buffer.  The buffer is
    /// created once, zero-initialized, and only ever rewritten in full.
    pub uniform_buffer: AdjustmentParams,
    /// The device-reported maximum 2D texture dimension.
    pub max_dimension: u32,
}

impl TextureManager {
    /// A resident texture always fits the device limit.
    pub open spec fn wf(self) -> bool {
        match self.source_texture {
            Some(d) => 1 <= d.width <= self.max_dimension && 1 <= d.height <= self.max_dimension,
            None => true,
        }
    }

    /// Whether a source texture is resident.
    pub open spec fn is_loaded(self) -> bool {
        self.source_texture is Some
    }

    /// Create an empty store for a device with the given texture limit.
    /// The parameter buffer exists from the start, zero-initialized; no
    /// source texture is resident yet.
    pub fn new(max_dimension: u32) -> (r: TextureManager)
        ensures
            r.source_texture is None,
            r.uniform_buffer == AdjustmentParams::zeroed_spec(),
            r.max_dimension == max_dimension,
            r.wf(),
    {
        TextureManager {
            source_texture: None,
            uniform_buffer: AdjustmentParams { brightness: 0, contrast: 0, saturation: 0, padding: 0 },
            max_dimension,
        }
    }

    /// Make an image of the given dimensions the resident texture,
    /// replacing any previous one.  Fails with `ImageTooLarge`, leaving
    /// the store untouched, exactly when a dimension exceeds the device
    /// limit.
    pub fn load_image(&mut self, width: u32, height: u32) -> (r: Result<(), RenderError>)
        requires
            old(self).wf(),
            width >= 1,
            height >= 1,
        ensures
            final(self).wf(),
            r is Ok <==> width <= old(self).max_dimension && height <= old(self).max_dimension,
            r is Ok ==> *final(self) == (TextureManager {
                source_texture: Some(ImageSize { width, height }),
                ..*old(self)
            }),
            r is Err ==> *final(self) == *old(self) && r == Err::<(), RenderError>(
                RenderError::ImageTooLarge,
            ),
    {
        if width > self.max_dimension || height > self.max_dimension {
            Err(RenderError::ImageTooLarge)
        } else {
            self.source_texture = Some(ImageSize { width, height });
            Ok(())
        }
    }

    /// The resident texture's dimensions, if one is loaded.
    pub fn source_texture(&self) -> (r: Option<ImageSize>)
        ensures
            r == self.source_texture,
    {
        self.source_texture
    }

    /// The record held by the device parameter buffer.
    pub fn uniform_buffer(&self) -> (r: &AdjustmentParams)
        ensures
            *r == self.uniform_buffer,
    {
        &self.uniform_buffer
    }

    /// Write the given record into the parameter buffer, in full, at
    /// offset zero.  Valid in either state; never fails, the buffer is
    /// pre-sized.
    pub fn update_uniform_buffer(&mut self, params: &AdjustmentParams)
        ensures
            *final(self) == (TextureManager { uniform_buffer: *params, ..*old(self) }),
    {
        self.uniform_buffer = *params;
    }
}

} // verus!
