//! Descriptor management: one set per swapchain image, each binding that
//! image's uniform buffer, the model sampler and the cubemap sampler, with
//! live rebinding of the model texture.

use vstd::prelude::*;
use crate::types::{SHADER_STAGE_FRAGMENT, SHADER_STAGE_VERTEX};

verus! {

/// Byte size of one uniform-buffer instance: three column-major 4x4
/// single-precision matrices followed by one single-precision blend weight.
pub const UBO_SIZE: u64 = 196;

/// The two descriptor kinds the renderer uses.
#[derive(Clone, Copy, PartialEq, Eq, Structural, Debug)]
pub enum DescriptorType {
    UniformBuffer,
    CombinedImageSampler,
}

/// One binding of the shared descriptor set layout.
#[derive(Clone, Copy, PartialEq, Eq, Structural, Debug)]
pub struct BindingSpec {
    pub binding: u32,
    pub descriptor_type: DescriptorType,
    pub count: u32,
    pub stages: u32,
}

/// The set layout every pipeline shares: binding 0 the uniform buffer in
/// the vertex stage, binding 1 the model sampler and binding 2 the cubemap
/// sampler in the fragment stage.
pub open spec fn layout_bindings_spec() -> Seq<BindingSpec> {
    seq![
        BindingSpec {
            binding: 0,
            descriptor_type: DescriptorType::UniformBuffer,
            count: 1,
            stages: SHADER_STAGE_VERTEX,
        },
        BindingSpec {
            binding: 1,
            descriptor_type: DescriptorType::CombinedImageSampler,
            count: 1,
            stages: SHADER_STAGE_FRAGMENT,
        },
        BindingSpec {
            binding: 2,
            descriptor_type: DescriptorType::CombinedImageSampler,
            count: 1,
            stages: SHADER_STAGE_FRAGMENT,
        },
    ]
}

/// The three bindings of the shared descriptor set layout, in binding
/// order.
pub fn descriptor_set_layout_bindings() -> (r: Vec<BindingSpec>)
    ensures
        r@ == layout_bindings_spec(),
{
    let mut v: Vec<BindingSpec> = Vec::new();
    v.push(crate::structs::UniformBufferObject::get_descriptor_set_layout_binding());
    v.push(BindingSpec {
        binding: 1,
        descriptor_type: DescriptorType::CombinedImageSampler,
        count: 1,
        stages: SHADER_STAGE_FRAGMENT,
    });
    v.push(BindingSpec {
        binding: 2,
        descriptor_type: DescriptorType::CombinedImageSampler,
        count: 1,
        stages: SHADER_STAGE_FRAGMENT,
    });
    proof {
        assert(v@ =~= layout_bindings_spec());
    }
    v
}

/// Capacity of the descriptor pool for `size` sets: `size` uniform-buffer
/// descriptors and two sampler descriptors per set.
#[derive(Clone, Copy, PartialEq, Eq, Structural, Debug)]
pub struct DescriptorPoolSpec {
    pub uniform_descriptors: u32,
    pub sampler_descriptors: u32,
    pub max_sets: u32,
}

pub fn descriptor_pool_spec(size: u32) -> (r: DescriptorPoolSpec)
    requires
        size <= 0x7FFF_FFFF,
    ensures
        r.uniform_descriptors == size,
        r.sampler_descriptors == 2 * size,
        r.max_sets == size,
{
    DescriptorPoolSpec { uniform_descriptors: size, sampler_descriptors: 2 * size, max_sets: size }
}

/// One descriptor set: which uniform buffer it reads and which textures it
/// samples, each texture named by the identity the core minted for it.
#[derive(Clone, Copy, PartialEq, Eq, Structural, Debug)]
pub struct DescriptorSetModel {
    /// Index of this set's uniform buffer; always the set's own index, the
    /// 1:1 binding that keeps per-image uniform writes race-free.
    pub ubo_index: usize,
    pub ubo_offset: u64,
    pub ubo_range: u64,
    /// Binding 1: the current model texture.
    pub model_texture: u64,
    /// Binding 2: the cubemap texture.
    pub cubemap_texture: u64,
}

pub open spec fn set_model_spec(i: int, model_tex: u64, cube_tex: u64) -> DescriptorSetModel {
    DescriptorSetModel {
        ubo_index: i as usize,
        ubo_offset: 0,
        ubo_range: UBO_SIZE,
        model_texture: model_tex,
        cubemap_texture: cube_tex,
    }
}

/// `count` sets, set `i` bound to uniform buffer `i` and to the given pair
/// of textures.
pub open spec fn descriptor_sets_ok(
    sets: Seq<DescriptorSetModel>,
    count: nat,
    model_tex: u64,
    cube_tex: u64,
) -> bool {
    &&& sets.len() == count
    &&& forall|i: int| 0 <= i < count ==> #[trigger] sets[i] == set_model_spec(i, model_tex, cube_tex)
}

/// One descriptor set per swapchain image, set `i` reading uniform buffer
/// `i` and sampling the two given textures.
pub fn create_descriptor_sets(count: usize, model_tex: u64, cube_tex: u64) -> (r: Vec<
    DescriptorSetModel,
>)
    ensures
        descriptor_sets_ok(r@, count as nat, model_tex, cube_tex),
{
    let mut sets: Vec<DescriptorSetModel> = Vec::new();
    let mut i: usize = 0;
    while i < count
        invariant
            0 <= i <= count,
            sets@.len() == i,
            forall|j: int| 0 <= j < i ==> #[trigger] sets@[j] == set_model_spec(j, model_tex, cube_tex),
        decreases count - i,
    {
        sets.push(DescriptorSetModel {
            ubo_index: i,
            ubo_offset: 0,
            ubo_range: UBO_SIZE,
            model_texture: model_tex,
            cubemap_texture: cube_tex,
        });
        i = i + 1;
    }
    sets
}

/// The shape of every per-image uniform buffer: one uniform-buffer
/// instance, written through a persistent host mapping.
pub open spec fn uniform_buffer_spec() -> crate::memory::BufferSpec {
    crate::memory::BufferSpec {
        size: UBO_SIZE,
        usage: crate::types::BUFFER_USAGE_UNIFORM,
        memory_properties: crate::types::MEMORY_HOST_VISIBLE | crate::types::MEMORY_HOST_COHERENT,
    }
}

/// One host-visible uniform buffer per swapchain image.
pub fn create_uniform_buffers(count: usize) -> (r: Vec<crate::memory::BufferSpec>)
    ensures
        r@.len() == count,
        forall|i: int| 0 <= i < count ==> #[trigger] r@[i] == uniform_buffer_spec(),
{
    let mut v: Vec<crate::memory::BufferSpec> = Vec::new();
    let mut i: usize = 0;
    while i < count
        invariant
            0 <= i <= count,
            v@.len() == i,
            forall|j: int| 0 <= j < i ==> #[trigger] v@[j] == uniform_buffer_spec(),
        decreases count - i,
    {
        v.push(crate::memory::BufferSpec {
            size: UBO_SIZE,
            usage: crate::types::BUFFER_USAGE_UNIFORM,
            memory_properties: crate::types::MEMORY_HOST_VISIBLE
                | crate::types::MEMORY_HOST_COHERENT,
        });
        i = i + 1;
    }
    v
}

/// Rewrites binding 1 of every set to the new model texture, leaving the
/// uniform-buffer and cubemap bindings untouched.
pub fn rebind_model_texture(sets: &Vec<DescriptorSetModel>, new_tex: u64) -> (r: Vec<
    DescriptorSetModel,
>)
    ensures
        r@.len() == sets@.len(),
        forall|i: int|
            0 <= i < sets@.len() ==> #[trigger] r@[i] == (DescriptorSetModel {
                model_texture: new_tex,
                ..sets@[i]
            }),
{
    let mut out: Vec<DescriptorSetModel> = Vec::new();
    let mut i: usize = 0;
    while i < sets.len()
        invariant
            0 <= i <= sets@.len(),
            out@.len() == i,
            forall|j: int|
                0 <= j < i ==> #[trigger] out@[j] == (DescriptorSetModel {
                    model_texture: new_tex,
                    ..sets@[j]
                }),
        decreases sets@.len() - i,
    {
        let s = sets[i];
        out.push(DescriptorSetModel { model_texture: new_tex, ..s });
        i = i + 1;
    }
    out
}

} // verus!
