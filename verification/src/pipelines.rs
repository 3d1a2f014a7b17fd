//! The render pipeline: the compiled full-screen shader program and the
//! fixed description of the device resources it consumes.
//!
//! The binding layout is content-independent: it names resource slots,
//! not specific resources, so it is built exactly once.  A bind group,
//! by contrast, references the store's current texture and must be
//! recomputed whenever that texture is replaced; it is cheap, so it is
//! recomputed on every executed render pass.

use vstd::prelude::*;
use crate::error::RenderError;
use crate::size::ImageSize;
use crate::texture::TextureManager;

verus! {

/// Vertices of the full-screen draw: one triangle pair.
pub const FULLSCREEN_VERTEX_COUNT: u32 = 6;

/// What kind of resource a shader input slot expects.
#[derive(Clone, Copy, Debug, PartialEq, Eq, Structural)]
pub enum BindingKind {
    /// A filterable 2D texture, sampled in the fragment stage.
    SampledTexture,
    /// A filtering (bilinear) sampler.
    Sampler,
    /// The uniform buffer holding the encoded adjustment record.
    UniformBuffer,
}

/// One shader input slot: its binding index and the resource kind bound
/// there.
#[derive(Clone, Copy, Debug, PartialEq, Eq, Structural)]
pub struct BindingSlot {
    pub binding: u32,
    pub kind: BindingKind,
}

/// The fixed draw configuration of the compiled shader program.
#[derive(Clone, Copy, Debug, PartialEq, Eq, Structural)]
pub struct PipelineDescription {
    /// Vertex count of the full-screen pass.
    pub vertex_count: u32,
}

/// A fresh association of the layout's slots with concrete resources:
/// the store's current texture, the bilinear sampler, and the parameter
/// buffer.
#[derive(Clone, Copy, Debug, PartialEq, Eq, Structural)]
pub struct BindGroupPlan {
    /// The texture bound at slot zero.
    pub texture: ImageSize,
}

/// The compiled shader program and its binding-layout description.
#[verifier::ext_equal]
pub struct RenderPipelines {
    pub main_pipeline: Option<PipelineDescription>,
    pub bind_group_layout: Option<Vec<BindingSlot>>,
}

impl RenderPipelines {
    /// The shader's three input slots, in binding order: the source
    /// texture, the bilinear sampler, and the parameter buffer.
    pub open spec fn layout_spec() -> Seq<BindingSlot> {
        seq![
            BindingSlot { binding: 0, kind: BindingKind::SampledTexture },
            BindingSlot { binding: 1, kind: BindingKind::Sampler },
            BindingSlot { binding: 2, kind: BindingKind::UniformBuffer },
        ]
    }

    /// The one pipeline this core ever builds: the full-screen pass.
    pub open spec fn pipeline_spec() -> PipelineDescription {
        PipelineDescription { vertex_count: FULLSCREEN_VERTEX_COUNT }
    }

    /// The pipeline and layout are built and hold the canonical
    /// description.
    pub open spec fn wf(self) -> bool {
        &&& self.main_pipeline == Some(RenderPipelines::pipeline_spec())
        &&& self.bind_group_layout matches Some(l) && l@ == RenderPipelines::layout_spec()
    }

    /// Compile the shader program and its binding layout.  Built once,
    /// at renderer construction; never rebuilt.
    pub fn new() -> (r: RenderPipelines)
        ensures
            r.wf(),
    {
        let mut layout: Vec<BindingSlot> = Vec::new();
        layout.push(BindingSlot { binding: 0, kind: BindingKind::SampledTexture });
        layout.push(BindingSlot { binding: 1, kind: BindingKind::Sampler });
        layout.push(BindingSlot { binding: 2, kind: BindingKind::UniformBuffer });
        proof {
            assert(layout@ =~= RenderPipelines::layout_spec());
        }
        RenderPipelines {
            main_pipeline: Some(PipelineDescription { vertex_count: FULLSCREEN_VERTEX_COUNT }),
            bind_group_layout: Some(layout),
        }
    }

    /// The compiled full-screen pipeline, once built.
    pub fn main_pipeline(&self) -> (r: Option<PipelineDescription>)
        ensures
            r == self.main_pipeline,
    {
        self.main_pipeline
    }

    /// The binding-layout description, once built.
    pub fn bind_group_layout(&self) -> (r: Option<&Vec<BindingSlot>>)
        ensures
            r is Some <==> self.bind_group_layout is Some,
            r matches Some(l) ==> self.bind_group_layout == Some(*l),
    {
        self.bind_group_layout.as_ref()
    }

    /// Produce a fresh binding of the layout's slots against the store's
    /// current texture.  Fails exactly while the store is empty.
    pub fn bind(&self, store: &TextureManager) -> (r: Result<BindGroupPlan, RenderError>)
        ensures
            r is Ok <==> store.source_texture is Some,
            store.source_texture matches Some(d) ==> r == Ok::<BindGroupPlan, RenderError>(
                BindGroupPlan { texture: d },
            ),
            store.source_texture is None ==> r == Err::<BindGroupPlan, RenderError>(
                RenderError::NoImageLoaded,
            ),
    {
        match store.source_texture() {
            Some(d) => Ok(BindGroupPlan { texture: d }),
            None => Err(RenderError::NoImageLoaded),
        }
    }
}

} // verus!
