//! The renderer: it holds the current adjustment values and the dirty
//! flag, coordinates the texture store and the pipeline, and decides
//! whether a render request actually needs device work.
//!
//! The dirty flag is true whenever state affecting the rendered output
//! (parameters or source image) has changed since the last executed
//! render pass; an executed pass clears it and nothing else does.  A
//! render with a clean flag performs no device work at all.

use vstd::prelude::*;
use crate::error::RenderError;
use crate::params::{
    clamped,
    AdjustmentParams,
    BRIGHTNESS_MAX,
    BRIGHTNESS_MIN,
    CONTRAST_MAX,
    CONTRAST_MIN,
    SATURATION_MAX,
    SATURATION_MIN,
};
use crate::pipelines::{BindGroupPlan, RenderPipelines, FULLSCREEN_VERTEX_COUNT};
use crate::size::ImageSize;
use crate::texture::TextureManager;

verus! {

/// Everything the embedding needs to execute one render pass: the
/// record to write into the parameter buffer before the draw, the fresh
/// binding against the current texture, and the vertex count of the
/// full-screen pass.
#[derive(Clone, Copy, Debug, PartialEq, Eq, Structural)]
pub struct DrawPlan {
    pub params: AdjustmentParams,
    pub bind_group: BindGroupPlan,
    pub vertex_count: u32,
}

/// What a render request came to.
#[derive(Clone, Copy, Debug, PartialEq, Eq, Structural)]
pub enum RenderWork {
    /// Nothing observable changed since the last pass: no device work.
    Skipped,
    /// One full-screen pass to execute.
    Draw(DrawPlan),
}

/// The render core: adjustment state, dirty flag, and the two device
/// components it orchestrates.
#[verifier::ext_equal]
pub struct Renderer {
    pub texture_manager: TextureManager,
    pub pipelines: RenderPipelines,
    pub params: AdjustmentParams,
    pub render_requested: bool,
}

impl Renderer {
    /// Parameters in their domains, a fitting resident texture, and the
    /// pipeline built.
    pub open spec fn wf(self) -> bool {
        &&& self.params.wf()
        &&& self.texture_manager.wf()
        &&& self.pipelines.wf()
    }

    /// What a render call returns in this state.
    pub open spec fn render_outcome(self) -> Result<RenderWork, RenderError> {
        if self.texture_manager.source_texture is None {
            Err(RenderError::NoImageLoaded)
        } else if !self.render_requested {
            Ok(RenderWork::Skipped)
        } else {
            Ok(
                RenderWork::Draw(
                    DrawPlan {
                        params: self.params,
                        bind_group: BindGroupPlan {
                            texture: self.texture_manager.source_texture.unwrap(),
                        },
                        vertex_count: FULLSCREEN_VERTEX_COUNT,
                    },
                ),
            )
        }
    }

    /// The state a render call leaves behind: an executed pass pushes
    /// the parameters to the store's buffer and clears the dirty flag;
    /// anything else leaves the state untouched.
    pub open spec fn render_next(self) -> Renderer {
        if self.texture_manager.source_texture is Some && self.render_requested {
            Renderer {
                texture_manager: TextureManager {
                    uniform_buffer: self.params,
                    ..self.texture_manager
                },
                render_requested: false,
                ..self
            }
        } else {
            self
        }
    }

    /// Build the render core for a device with the given texture limit:
    /// pipeline compiled once, empty texture store, default parameters,
    /// and nothing to show yet.
    pub fn new(max_texture_dimension: u32) -> (r: Renderer)
        ensures
            r.wf(),
            r.params == AdjustmentParams::default_spec(),
            !r.render_requested,
            r.texture_manager.source_texture is None,
            r.texture_manager.uniform_buffer == AdjustmentParams::zeroed_spec(),
            r.texture_manager.max_dimension == max_texture_dimension,
    {
        Renderer {
            texture_manager: TextureManager::new(max_texture_dimension),
            pipelines: RenderPipelines::new(),
            params: AdjustmentParams::default(),
            render_requested: false,
        }
    }

    /// The texture store.
    pub fn texture_manager(&self) -> (r: &TextureManager)
        ensures
            *r == self.texture_manager,
    {
        &self.texture_manager
    }

    /// The texture store, for direct loads and parameter pushes.  What
    /// the caller does through the borrow is all that changes.
    pub fn texture_manager_mut(&mut self) -> (r: &mut TextureManager)
        ensures
            *r == old(self).texture_manager,
            *final(self) == (Renderer { texture_manager: *final(r), ..*old(self) }),
    {
        &mut self.texture_manager
    }

    /// The current adjustment parameters.
    pub fn params(&self) -> (r: &AdjustmentParams)
        ensures
            *r == self.params,
    {
        &self.params
    }

    /// Set the brightness, clamped to its domain, and mark the output
    /// stale — unconditionally, even where the clamped value is
    /// numerically unchanged.
    pub fn set_brightness(&mut self, value: i32)
        ensures
            final(self).params.brightness == clamped(
                value as int,
                BRIGHTNESS_MIN as int,
                BRIGHTNESS_MAX as int,
            ),
            final(self).params.contrast == old(self).params.contrast,
            final(self).params.saturation == old(self).params.saturation,
            final(self).params.padding == old(self).params.padding,
            final(self).render_requested,
            final(self).texture_manager == old(self).texture_manager,
            final(self).pipelines == old(self).pipelines,
    {
        self.params.set_brightness(value);
        self.render_requested = true;
    }

    /// Set the contrast, clamped to its domain, and mark the output
    /// stale — unconditionally.
    pub fn set_contrast(&mut self, value: i32)
        ensures
            final(self).params.contrast == clamped(
                value as int,
                CONTRAST_MIN as int,
                CONTRAST_MAX as int,
            ),
            final(self).params.brightness == old(self).params.brightness,
            final(self).params.saturation == old(self).params.saturation,
            final(self).params.padding == old(self).params.padding,
            final(self).render_requested,
            final(self).texture_manager == old(self).texture_manager,
            final(self).pipelines == old(self).pipelines,
    {
        self.params.set_contrast(value);
        self.render_requested = true;
    }

    /// Set the saturation, clamped to its domain, and mark the output
    /// stale — unconditionally.
    pub fn set_saturation(&mut self, value: i32)
        ensures
            final(self).params.saturation == clamped(
                value as int,
                SATURATION_MIN as int,
                SATURATION_MAX as int,
            ),
            final(self).params.brightness == old(self).params.brightness,
            final(self).params.contrast == old(self).params.contrast,
            final(self).params.padding == old(self).params.padding,
            final(self).render_requested,
            final(self).texture_manager == old(self).texture_manager,
            final(self).pipelines == old(self).pipelines,
    {
        self.params.set_saturation(value);
        self.render_requested = true;
    }

    /// Restore the default adjustments, whatever the prior state, and
    /// mark the output stale.
    pub fn reset_adjustments(&mut self)
        ensures
            final(self).params == AdjustmentParams::default_spec(),
            final(self).render_requested,
            final(self).texture_manager == old(self).texture_manager,
            final(self).pipelines == old(self).pipelines,
    {
        self.params.reset();
        self.render_requested = true;
    }

    /// Mark the output stale without changing any adjustment.
    pub fn request_render(&mut self)
        ensures
            *final(self) == (Renderer { render_requested: true, ..*old(self) }),
    {
        self.render_requested = true;
    }

    /// Make an image of the given dimensions the document: on success
    /// the store's texture is replaced and the output marked stale; on
    /// failure the previously loaded texture and the dirty flag are left
    /// exactly as they were.
    pub fn load_image(&mut self, width: u32, height: u32) -> (r: Result<(), RenderError>)
        requires
            old(self).wf(),
            width >= 1,
            height >= 1,
        ensures
            final(self).wf(),
            r is Ok <==> width <= old(self).texture_manager.max_dimension && height <= old(
                self,
            ).texture_manager.max_dimension,
            r is Ok ==> *final(self) == (Renderer {
                texture_manager: TextureManager {
                    source_texture: Some(ImageSize { width, height }),
                    ..old(self).texture_manager
                },
                render_requested: true,
                ..*old(self)
            }),
            r is Err ==> *final(self) == *old(self) && r == Err::<(), RenderError>(
                RenderError::ImageTooLarge,
            ),
    {
        match self.texture_manager.load_image(width, height) {
            Ok(()) => {
                self.render_requested = true;
                Ok(())
            },
            Err(e) => Err(e),
        }
    }

    /// Serve a render request.  While no image is loaded this fails with
    /// `NoImageLoaded` and performs no device work.  With a clean dirty
    /// flag it returns at once, again with no device work.  Otherwise it
    /// pushes the parameters to the store's buffer, rebuilds the binding
    /// against the current texture, hands back the pass to execute, and
    /// clears the dirty flag.
    pub fn render(&mut self) -> (r: Result<RenderWork, RenderError>)
        requires
            old(self).wf(),
        ensures
            final(self).wf(),
            *final(self) == old(self).render_next(),
            r == old(self).render_outcome(),
    {
        match self.texture_manager.source_texture() {
            None => Err(RenderError::NoImageLoaded),
            Some(_dims) => {
                if !self.render_requested {
                    Ok(RenderWork::Skipped)
                } else {
                    let params = self.params;
                    self.texture_manager.update_uniform_buffer(&params);
                    match self.pipelines.bind(&self.texture_manager) {
                        Ok(bind_group) => {
                            self.render_requested = false;
                            Ok(
                                RenderWork::Draw(
                                    DrawPlan {
                                        params,
                                        bind_group,
                                        vertex_count: FULLSCREEN_VERTEX_COUNT,
                                    },
                                ),
                            )
                        },
                        Err(_) => {
                            proof {
                                assert(false);
                            }
                            Err(RenderError::NoImageLoaded)
                        },
                    }
                }
            },
        }
    }
}

/// A loaded, stale renderer executes exactly one pass: the first render
/// call hands back a draw against the current parameters and clears the
/// dirty flag; with no further state change, a second render call finds
/// the flag clean, performs no device work, and leaves the state fixed.
pub proof fn lemma_render_coalesces(r: Renderer)
    requires
        r.wf(),
        r.texture_manager.source_texture is Some,
        r.render_requested,
    ensures
        r.render_outcome() matches Ok(w) && w matches RenderWork::Draw(p) && p.params == r.params,
        !r.render_next().render_requested,
        r.render_next().render_outcome() == Ok::<RenderWork, RenderError>(RenderWork::Skipped),
        r.render_next().render_next() == r.render_next(),
{
}

} // verus!
