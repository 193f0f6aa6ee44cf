//! Shared structural types: shader bytecode pairs, the vertex layout, and
//! the per-image uniform buffer contents.

use vstd::prelude::*;
use crate::descriptor::{BindingSpec, DescriptorType};
use crate::matrix::{
    from_scale_spec, from_translation_spec, fx_recip_spec, mat_bounded, mat_mul_spec, Matrix4,
    Vector3, FX_ONE, MIN_MODEL_EXTENT, VEC_BOUND,
};
use crate::types::SHADER_STAGE_VERTEX;

verus! {

/// A vertex and fragment shader bytecode pair for one pipeline.
pub struct ShaderSpv {
    pub vert: Vec<u8>,
    pub frag: Vec<u8>,
}

/// One mesh vertex as the core models it: Q16.16 position, color and
/// texture coordinates.  The shell lays the same fields out as three,
/// three and two single-precision floats for the driver.
#[derive(Clone, Copy, PartialEq, Eq, Structural, Debug)]
pub struct Vertex {
    pub pos: Vector3,
    pub color: Vector3,
    pub coord_u: i64,
    pub coord_v: i64,
}

/// Attribute formats the vertex layout uses.
#[derive(Clone, Copy, PartialEq, Eq, Structural, Debug)]
pub enum AttrFormat {
    R32G32B32Sfloat,
    R32G32Sfloat,
}

/// The single vertex input binding.
#[derive(Clone, Copy, PartialEq, Eq, Structural, Debug)]
pub struct VertexInputBinding {
    pub binding: u32,
    pub stride: u32,
    pub per_instance: bool,
}

/// One vertex attribute of the fixed layout.
#[derive(Clone, Copy, PartialEq, Eq, Structural, Debug)]
pub struct VertexAttribute {
    pub binding: u32,
    pub location: u32,
    pub format: AttrFormat,
    pub offset: u32,
}

pub open spec fn vertex_attributes_spec() -> Seq<VertexAttribute> {
    seq![
        VertexAttribute {
            binding: 0,
            location: 0,
            format: AttrFormat::R32G32B32Sfloat,
            offset: 0,
        },
        VertexAttribute {
            binding: 0,
            location: 1,
            format: AttrFormat::R32G32B32Sfloat,
            offset: 12,
        },
        VertexAttribute { binding: 0, location: 2, format: AttrFormat::R32G32Sfloat, offset: 24 },
    ]
}

impl Vertex {
    /// The one vertex buffer binding: eight 4-byte fields per vertex,
    /// stepped per vertex.
    pub fn get_binding_description() -> (r: VertexInputBinding)
        ensures
            r == (VertexInputBinding { binding: 0, stride: 32, per_instance: false }),
    {
        VertexInputBinding { binding: 0, stride: 32, per_instance: false }
    }

    /// The fixed attribute layout: position at offset 0, color at 12,
    /// texture coordinates at 24.
    pub fn get_attribute_descriptions() -> (r: Vec<VertexAttribute>)
        ensures
            r@ == vertex_attributes_spec(),
    {
        let mut v: Vec<VertexAttribute> = Vec::new();
        v.push(VertexAttribute {
            binding: 0,
            location: 0,
            format: AttrFormat::R32G32B32Sfloat,
            offset: 0,
        });
        v.push(VertexAttribute {
            binding: 0,
            location: 1,
            format: AttrFormat::R32G32B32Sfloat,
            offset: 12,
        });
        v.push(VertexAttribute {
            binding: 0,
            location: 2,
            format: AttrFormat::R32G32Sfloat,
            offset: 24,
        });
        proof {
            assert(v@ =~= vertex_attributes_spec());
        }
        v
    }
}

/// Per-image uniform data: the three transforms and the texture blend
/// weight, all Q16.16; the shell converts to the driver's float layout.
#[derive(Clone, Copy, PartialEq, Eq, Structural, Debug)]
pub struct UniformBufferObject {
    pub model: Matrix4,
    pub view: Matrix4,
    pub proj: Matrix4,
    pub texture_weight: i64,
}

/// The fixed camera: at `(0, 0, 3)` looking at the origin with `+Y` up.
/// Rows are the camera's right, up and backward axes with the negated
/// eye offsets, here the identity with a `-3` translation along `Z`.
pub open spec fn view_matrix_spec() -> Matrix4 {
    Matrix4 {
        m00: FX_ONE as i64, m01: 0, m02: 0, m03: 0,
        m10: 0, m11: FX_ONE as i64, m12: 0, m13: 0,
        m20: 0, m21: 0, m22: FX_ONE as i64, m23: (-3 * FX_ONE) as i64,
        m30: 0, m31: 0, m32: 0, m33: FX_ONE as i64,
    }
}

/// Largest side of the model's bounding box.
pub open spec fn max_extent_spec(extent_min: Vector3, extent_max: Vector3) -> int {
    let dx = extent_max.x - extent_min.x;
    let dy = extent_max.y - extent_min.y;
    let dz = extent_max.z - extent_min.z;
    if dx >= dy && dx >= dz {
        dx
    } else if dy >= dz {
        dy
    } else {
        dz
    }
}

/// Negated center of the bounding box: the translation that moves the
/// model's middle to the origin.
pub open spec fn neg_center_spec(extent_min: Vector3, extent_max: Vector3) -> Vector3 {
    Vector3 {
        x: (-extent_min.x - (extent_max.x - extent_min.x) / 2) as i64,
        y: (-extent_min.y - (extent_max.y - extent_min.y) / 2) as i64,
        z: (-extent_min.z - (extent_max.z - extent_min.z) / 2) as i64,
    }
}

/// The normalizing model transform: center the bounding box, then scale
/// its largest side to unit length.
pub open spec fn model_matrix_spec(extent_min: Vector3, extent_max: Vector3) -> Matrix4 {
    mat_mul_spec(
        from_scale_spec(fx_recip_spec(max_extent_spec(extent_min, extent_max))),
        from_translation_spec(neg_center_spec(extent_min, extent_max)),
    )
}

impl UniformBufferObject {
    /// Binding 0 of the shared layout: one uniform buffer read by the
    /// vertex stage.
    pub fn get_descriptor_set_layout_binding() -> (r: BindingSpec)
        ensures
            r == (BindingSpec {
                binding: 0,
                descriptor_type: DescriptorType::UniformBuffer,
                count: 1,
                stages: SHADER_STAGE_VERTEX,
            }),
    {
        BindingSpec {
            binding: 0,
            descriptor_type: DescriptorType::UniformBuffer,
            count: 1,
            stages: SHADER_STAGE_VERTEX,
        }
    }

    /// The fixed camera transform.
    pub fn view_matrix() -> (r: Matrix4)
        ensures
            r == view_matrix_spec(),
            mat_bounded(r, crate::matrix::MAT_IN_BOUND as int),
    {
        Matrix4 {
            m00: FX_ONE, m01: 0, m02: 0, m03: 0,
            m10: 0, m11: FX_ONE, m12: 0, m13: 0,
            m20: 0, m21: 0, m22: FX_ONE, m23: -3 * FX_ONE,
            m30: 0, m31: 0, m32: 0, m33: FX_ONE,
        }
    }

    /// The transform that centers the model's bounding box on the origin
    /// and scales its largest side to unit length.  The extent bounds keep
    /// every intermediate product within the fixed-point range.
    pub fn model_matrix(extent_min: Vector3, extent_max: Vector3) -> (r: Matrix4)
        requires
            crate::matrix::vec_bounded(extent_min, VEC_BOUND as int),
            crate::matrix::vec_bounded(extent_max, VEC_BOUND as int),
            extent_min.x <= extent_max.x,
            extent_min.y <= extent_max.y,
            extent_min.z <= extent_max.z,
            max_extent_spec(extent_min, extent_max) >= MIN_MODEL_EXTENT,
        ensures
            r == model_matrix_spec(extent_min, extent_max),
            mat_bounded(r, crate::matrix::MAT_IN_BOUND as int),
    {
        let dx = extent_max.x - extent_min.x;
        let dy = extent_max.y - extent_min.y;
        let dz = extent_max.z - extent_min.z;
        let max_size: i64 = if dx >= dy && dx >= dz {
            dx
        } else if dy >= dz {
            dy
        } else {
            dz
        };
        let scale = Matrix4::from_scale(crate::matrix::fx_recip(max_size));
        let tx = -extent_min.x - ((dx as u64 / 2) as i64);
        let ty = -extent_min.y - ((dy as u64 / 2) as i64);
        let tz = -extent_min.z - ((dz as u64 / 2) as i64);
        let translate = Matrix4::from_translation(Vector3 { x: tx, y: ty, z: tz });
        let r = scale.mul(&translate);
        proof {
            let ghost me = max_extent_spec(extent_min, extent_max);
            vstd::arithmetic::div_mod::lemma_div_is_ordered_by_denominator(
                0x1_0000_0000int,
                MIN_MODEL_EXTENT as int,
                me,
            );
            vstd::arithmetic::div_mod::lemma_div_pos_is_pos(0x1_0000_0000int, me);
            crate::matrix::lemma_mat_mul_bounded(
                from_scale_spec(fx_recip_spec(me)),
                from_translation_spec(neg_center_spec(extent_min, extent_max)),
                0x20_0000,
                0x1000_0000,
            );
            vstd::arithmetic::div_mod::lemma_div_is_ordered(
                4int * 0x20_0000 * 0x1000_0000,
                0x40_0000_0000int * 65536,
                65536int,
            );
        }
        r
    }
}

} // verus!
