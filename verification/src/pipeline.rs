//! Graphics pipelines: the fixed-function configuration each of the two
//! pipelines is built with, shader bytecode decoding, and the geometry a
//! pipeline may own.

use vstd::prelude::*;
use crate::memory::{staged_buffer_plan, StagedBufferPlan};
use crate::types::{BUFFER_USAGE_INDEX, BUFFER_USAGE_VERTEX};

verus! {

/// Which of the two render targets a pipeline draws.
#[derive(Clone, Copy, PartialEq, Eq, Structural, Debug)]
pub enum PipelineKind {
    /// The cubemap background, drawn with back-face culling.
    Skybox,
    /// The opaque mesh, drawn without culling.
    Model,
}

/// A vertex/index buffer pair owned by exactly one pipeline; only its
/// index count matters to command recording.
#[derive(Clone, Copy, PartialEq, Eq, Structural, Debug)]
pub struct GeometryModel {
    pub index_count: u32,
}

/// One graphics pipeline and the geometry slot it owns.
#[derive(Clone, Copy, Debug)]
pub struct PipelineModel {
    pub kind: PipelineKind,
    pub cull_mode: u32,
    pub geometry: Option<GeometryModel>,
}

/// Everything one geometry upload moves: the two staged transfers, the
/// exact bytes of the index buffer, and the geometry the command recorder
/// draws against.  The vertex bytes are the collaborator's floating-point
/// data, which the plan can only size — 32 bytes per vertex, the stride of
/// [`crate::structs::Vertex::get_binding_description`] — while the index
/// bytes are pinned here down to the byte.
pub struct GeometryUploadPlan {
    pub vertex: StagedBufferPlan,
    pub index: StagedBufferPlan,
    /// The exact bytes to write into the index staging buffer: every index
    /// as a 32-bit little-endian word, in order.
    pub index_data: Vec<u8>,
    pub geometry: GeometryModel,
}

/// Plans the staged upload of one model's geometry: a vertex buffer of 32
/// bytes per vertex and an index buffer holding exactly the given indices,
/// both filled through host-visible staging buffers and copied whole into
/// device-local memory; the returned geometry carries the true index count.
pub fn geometry_upload_plan(vertex_count: usize, indices: &Vec<u32>) -> (r: GeometryUploadPlan)
    requires
        vertex_count <= 0x400_0000,
        indices@.len() <= 0x400_0000,
    ensures
        r.vertex == crate::memory::spec_staged_plan(
            (vertex_count * 32) as u64,
            BUFFER_USAGE_VERTEX,
        ),
        r.index == crate::memory::spec_staged_plan(
            (indices@.len() * 4) as u64,
            BUFFER_USAGE_INDEX,
        ),
        r.index_data@.len() == 4 * indices@.len(),
        forall|i: int| 0 <= i < indices@.len() ==> #[trigger] le_word(r.index_data@, i)
            == indices@[i],
        r.geometry == (GeometryModel { index_count: indices@.len() as u32 }),
{
    let vertex = staged_buffer_plan((vertex_count as u64) * 32, BUFFER_USAGE_VERTEX);
    let index = staged_buffer_plan((indices.len() as u64) * 4, BUFFER_USAGE_INDEX);
    let mut index_data: Vec<u8> = Vec::new();
    let mut j: usize = 0;
    while j < indices.len()
        invariant
            0 <= j <= indices@.len(),
            indices@.len() <= 0x400_0000,
            index_data@.len() == 4 * j,
            forall|k: int| 0 <= k < j ==> #[trigger] le_word(index_data@, k) == indices@[k],
        decreases indices@.len() - j,
    {
        let ghost before = index_data@;
        let x = indices[j];
        let b0 = (x & 0xFF) as u8;
        let b1 = ((x >> 8u32) & 0xFF) as u8;
        let b2 = ((x >> 16u32) & 0xFF) as u8;
        let b3 = ((x >> 24u32) & 0xFF) as u8;
        index_data.push(b0);
        index_data.push(b1);
        index_data.push(b2);
        index_data.push(b3);
        proof {
            assert((x & 0xFF) < 0x100 && ((x >> 8u32) & 0xFF) < 0x100 && ((x >> 16u32) & 0xFF)
                < 0x100 && ((x >> 24u32) & 0xFF) < 0x100 && (x & 0xFF) + ((x >> 8u32) & 0xFF)
                * 0x100 + ((x >> 16u32) & 0xFF) * 0x1_0000 + ((x >> 24u32) & 0xFF) * 0x100_0000
                == x) by (bit_vector);
            assert(index_data@[4 * j] == b0 && index_data@[4 * j + 1] == b1 && index_data@[4 * j
                + 2] == b2 && index_data@[4 * j + 3] == b3);
            assert(le_word(index_data@, j as int) == indices@[j as int]);
            assert forall|k: int| 0 <= k < j implies #[trigger] le_word(index_data@, k)
                == indices@[k] by {
                assert(le_word(before, k) == indices@[k]);
                assert(index_data@[4 * k] == before[4 * k] && index_data@[4 * k + 1] == before[4
                    * k + 1] && index_data@[4 * k + 2] == before[4 * k + 2] && index_data@[4 * k
                    + 3] == before[4 * k + 3]);
            }
        }
        j = j + 1;
    }
    GeometryUploadPlan {
        vertex,
        index,
        index_data,
        geometry: GeometryModel { index_count: indices.len() as u32 },
    }
}

/// Fixed-function state of one graphics pipeline, as the shared render
/// pass requires it; only the cull mode differs between the two pipelines.
#[derive(Clone, Copy, Debug)]
pub struct PipelineConfig {
    pub cull_mode: u32,
    pub sample_count: u32,
    pub viewport_width: u32,
    pub viewport_height: u32,
    /// Triangle lists without primitive restart.
    pub triangle_list: bool,
    pub primitive_restart: bool,
    /// Filled polygons, counter-clockwise front faces.
    pub fill_polygons: bool,
    pub counter_clockwise_front: bool,
    /// Depth testing with write-back, passing on strictly lesser depth.
    pub depth_test: bool,
    pub depth_write: bool,
    pub depth_compare_less: bool,
    /// Color blending disabled: the single subpass writes opaque RGBA.
    pub blend_enabled: bool,
    pub subpass: u32,
    /// Entry point of both shader stages.
    pub entry_point: &'static str,
}

pub open spec fn pipeline_config_spec(
    width: u32,
    height: u32,
    cull_mode: u32,
    sample_count: u32,
) -> PipelineConfig {
    PipelineConfig {
        cull_mode,
        sample_count,
        viewport_width: width,
        viewport_height: height,
        triangle_list: true,
        primitive_restart: false,
        fill_polygons: true,
        counter_clockwise_front: true,
        depth_test: true,
        depth_write: true,
        depth_compare_less: true,
        blend_enabled: false,
        subpass: 0,
        entry_point: "main",
    }
}

/// Fixed-function configuration for one pipeline: full-extent viewport and
/// scissor, triangle lists, filled polygons, depth test on, no blending,
/// both shader stages entered at `main`.
pub fn pipeline_config(width: u32, height: u32, cull_mode: u32, sample_count: u32) -> (r:
    PipelineConfig)
    ensures
        r == pipeline_config_spec(width, height, cull_mode, sample_count),
        r.entry_point@ == "main"@,
{
    PipelineConfig {
        cull_mode,
        sample_count,
        viewport_width: width,
        viewport_height: height,
        triangle_list: true,
        primitive_restart: false,
        fill_polygons: true,
        counter_clockwise_front: true,
        depth_test: true,
        depth_write: true,
        depth_compare_less: true,
        blend_enabled: false,
        subpass: 0,
        entry_point: "main",
    }
}

/// First word of every SPIR-V module.
pub const SPV_MAGIC: u32 = 0x0723_0203;

/// Why shader bytecode was rejected.
#[derive(Clone, Copy, PartialEq, Eq, Structural, Debug)]
pub enum SpvError {
    /// The byte count is zero or not a multiple of four.
    BadLength,
    /// The first word is not the SPIR-V magic number.
    BadMagic,
}

/// Word `i` of a little-endian byte stream.
pub open spec fn le_word(bytes: Seq<u8>, i: int) -> u32 {
    (bytes[4 * i] + bytes[4 * i + 1] * 0x100 + bytes[4 * i + 2] * 0x1_0000 + bytes[4 * i + 3]
        * 0x100_0000) as u32
}

/// Decodes shader bytecode into the 32-bit little-endian words the driver
/// consumes, rejecting byte streams whose length is not a whole positive
/// number of words or whose first word is not the SPIR-V magic number.
pub fn spv_words(bytes: &Vec<u8>) -> (r: Result<Vec<u32>, SpvError>)
    ensures
        r is Ok <==> bytes@.len() >= 4 && bytes@.len() % 4 == 0 && le_word(bytes@, 0) == SPV_MAGIC,
        r matches Ok(words) ==> words@.len() == bytes@.len() / 4 && (forall|i: int|
            0 <= i < words@.len() ==> #[trigger] words@[i] == le_word(bytes@, i)),
        r == Err::<Vec<u32>, SpvError>(SpvError::BadLength) <==> (bytes@.len() < 4 || bytes@.len()
            % 4 != 0),
        r == Err::<Vec<u32>, SpvError>(SpvError::BadMagic) <==> (bytes@.len() >= 4 && bytes@.len()
            % 4 == 0 && le_word(bytes@, 0) != SPV_MAGIC),
{
    let n = bytes.len();
    if n < 4 || n % 4 != 0 {
        return Err(SpvError::BadLength);
    }
    let mut words: Vec<u32> = Vec::new();
    let mut i: usize = 0;
    while i < n / 4
        invariant
            0 <= i <= n / 4,
            n == bytes@.len(),
            n >= 4,
            n % 4 == 0,
            words@.len() == i,
            forall|j: int| 0 <= j < i ==> #[trigger] words@[j] == le_word(bytes@, j),
        decreases n / 4 - i,
    {
        let b0 = bytes[4 * i] as u32;
        let b1 = bytes[4 * i + 1] as u32;
        let b2 = bytes[4 * i + 2] as u32;
        let b3 = bytes[4 * i + 3] as u32;
        let w = b0 | (b1 << 8u32) | (b2 << 16u32) | (b3 << 24u32);
        proof {
            assert(b1 << 8u32 == b1 * 0x100 && b2 << 16u32 == b2 * 0x1_0000 && b3 << 24u32 == b3
                * 0x100_0000 && (b0 | (b1 << 8u32) | (b2 << 16u32) | (b3 << 24u32)) == b0 + (b1
                << 8u32) + (b2 << 16u32) + (b3 << 24u32)) by (bit_vector)
                requires
                    b0 < 0x100 && b1 < 0x100 && b2 < 0x100 && b3 < 0x100,
            ;
        }
        words.push(w);
        i = i + 1;
    }
    if words[0] != SPV_MAGIC {
        return Err(SpvError::BadMagic);
    }
    Ok(words)
}

} // verus!
