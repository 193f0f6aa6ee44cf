//! Command recording: one reusable command buffer per framebuffer, each
//! drawing the active pipelines in order against that framebuffer's own
//! descriptor set.

use vstd::prelude::*;
use crate::matrix::FX_ONE;
use crate::pipeline::{PipelineKind, PipelineModel};

verus! {

/// One indexed draw inside a render pass: bind the pipeline, bind its
/// geometry when it owns one, bind the framebuffer's descriptor set, draw.
#[derive(Clone, Copy, PartialEq, Eq, Structural, Debug)]
pub struct DrawStep {
    pub pipeline: PipelineKind,
    pub bind_geometry: bool,
    pub index_count: u32,
    pub descriptor_set_index: usize,
}

/// What the render pass clears its attachments to at the start of every
/// recorded buffer, color channels and depth in Q16.16.
#[derive(Clone, Copy, PartialEq, Eq, Structural, Debug)]
pub struct ClearValues {
    pub color_r: i64,
    pub color_g: i64,
    pub color_b: i64,
    pub color_a: i64,
    pub depth: i64,
    pub stencil: u32,
}

/// Every frame starts from opaque black and the far depth plane.
pub open spec fn clear_values_spec() -> ClearValues {
    ClearValues { color_r: 0, color_g: 0, color_b: 0, color_a: FX_ONE as i64, depth: FX_ONE as i64, stencil: 0 }
}

/// Everything recorded into the command buffer of one framebuffer: render
/// pass begin with the fixed clear values, the draw steps in pipeline
/// order, render pass end.
#[derive(Clone, Debug)]
pub struct CommandBufferModel {
    pub framebuffer_index: usize,
    /// Recorded reusable-while-pending, as consecutive frames may submit
    /// the same buffer.
    pub simultaneous_use: bool,
    /// Clear color and depth of the render-pass begin: opaque black and
    /// the far plane.
    pub clear: ClearValues,
    pub steps: Vec<DrawStep>,
}

/// The draw step a pipeline contributes to framebuffer `i`'s buffer.
pub open spec fn step_for(p: PipelineModel, i: int) -> DrawStep {
    DrawStep {
        pipeline: p.kind,
        bind_geometry: p.geometry is Some,
        index_count: if p.geometry is Some {
            p.geometry->Some_0.index_count
        } else {
            0
        },
        descriptor_set_index: i as usize,
    }
}

/// Command buffer `i` is recorded for framebuffer `i`: one step per
/// pipeline, in order, each binding descriptor set `i`.
pub open spec fn buffer_recorded_ok(
    cb: CommandBufferModel,
    i: int,
    pipelines: Seq<PipelineModel>,
) -> bool {
    &&& cb.framebuffer_index == i as usize
    &&& cb.simultaneous_use
    &&& cb.clear == clear_values_spec()
    &&& cb.steps@.len() == pipelines.len()
    &&& forall|j: int| 0 <= j < pipelines.len() ==> #[trigger] cb.steps@[j] == step_for(pipelines[j], i)
}

/// One correctly recorded command buffer for each of `n` framebuffers.
pub open spec fn buffers_recorded_ok(
    cbs: Seq<CommandBufferModel>,
    n: nat,
    pipelines: Seq<PipelineModel>,
) -> bool {
    &&& cbs.len() == n
    &&& forall|i: int| 0 <= i < n ==> buffer_recorded_ok(#[trigger] cbs[i], i, pipelines)
}

/// Records one command buffer per framebuffer, drawing the given pipelines
/// in order with the framebuffer's own descriptor set.
pub fn record_command_buffers(framebuffer_count: usize, pipelines: &Vec<PipelineModel>) -> (r: Vec<
    CommandBufferModel,
>)
    ensures
        buffers_recorded_ok(r@, framebuffer_count as nat, pipelines@),
{
    let mut buffers: Vec<CommandBufferModel> = Vec::new();
    let mut i: usize = 0;
    while i < framebuffer_count
        invariant
            0 <= i <= framebuffer_count,
            buffers@.len() == i,
            forall|k: int| 0 <= k < i ==> buffer_recorded_ok(#[trigger] buffers@[k], k, pipelines@),
        decreases framebuffer_count - i,
    {
        let mut steps: Vec<DrawStep> = Vec::new();
        let mut j: usize = 0;
        while j < pipelines.len()
            invariant
                0 <= j <= pipelines@.len(),
                steps@.len() == j,
                forall|k: int| 0 <= k < j ==> #[trigger] steps@[k] == step_for(pipelines@[k], i as int),
            decreases pipelines@.len() - j,
        {
            let p = &pipelines[j];
            let (bind_geometry, index_count): (bool, u32) = match p.geometry {
                Some(g) => (true, g.index_count),
                None => (false, 0),
            };
            steps.push(DrawStep {
                pipeline: p.kind,
                bind_geometry,
                index_count,
                descriptor_set_index: i,
            });
            j = j + 1;
        }
        buffers.push(CommandBufferModel {
            framebuffer_index: i,
            simultaneous_use: true,
            clear: ClearValues {
                color_r: 0,
                color_g: 0,
                color_b: 0,
                color_a: FX_ONE,
                depth: FX_ONE,
                stencil: 0,
            },
            steps,
        });
        i = i + 1;
    }
    buffers
}

/// The pipelines a frame draws, in recording order: the cubemap background
/// first when it is visible, then the model.
pub open spec fn draw_list_spec(
    model: PipelineModel,
    skybox: PipelineModel,
    show_cubemap: bool,
) -> Seq<PipelineModel> {
    if show_cubemap {
        seq![skybox, model]
    } else {
        seq![model]
    }
}

pub fn pipeline_draw_list(model: &PipelineModel, skybox: &PipelineModel, show_cubemap: bool) -> (r:
    Vec<PipelineModel>)
    ensures
        r@ == draw_list_spec(*model, *skybox, show_cubemap),
{
    let mut v: Vec<PipelineModel> = Vec::new();
    if show_cubemap {
        v.push(*skybox);
        v.push(*model);
        proof {
            assert(v@ =~= draw_list_spec(*model, *skybox, show_cubemap));
        }
    } else {
        v.push(*model);
        proof {
            assert(v@ =~= draw_list_spec(*model, *skybox, show_cubemap));
        }
    }
    v
}

} // verus!
