//! Sampled-texture loading: mip chain sizing and upload planning for single
//! 2D textures and six-face cubemaps.
//!
//! A plan is computed, and validated, in full before the caller creates any
//! GPU resource, so a rejected input leaves nothing partially live.

use vstd::prelude::*;
use vstd::arithmetic::power2::pow2;
use crate::memory::{BufferSpec, ImageSpec, ImageTiling};
use crate::barrier::{transition_masks_spec, BarrierMasks};
use crate::mipmap::{generate_mipmap_commands, mip_plan_ok, MipCommand};
use crate::types::{
    Format, ImageLayout, ASPECT_COLOR, BUFFER_USAGE_TRANSFER_SRC, IMAGE_USAGE_SAMPLED,
    IMAGE_USAGE_TRANSFER_DST, IMAGE_USAGE_TRANSFER_SRC, MEMORY_DEVICE_LOCAL, MEMORY_HOST_COHERENT,
    MEMORY_HOST_VISIBLE,
};

verus! {

/// Largest texture dimension the loader accepts, the ubiquitous device
/// limit for 2D and cube images; anything larger could not be allocated.
pub const MAX_TEXTURE_DIM: u32 = 16384;

/// Number of times `n` can be halved (rounding down) before reaching 1;
/// the floor of the base-two logarithm for `n >= 1`.
pub open spec fn log2_floor(n: nat) -> nat
    decreases n,
{
    if n <= 1 {
        0
    } else {
        1 + log2_floor(n / 2)
    }
}

/// The full mip chain of a `width x height` image has
/// `floor(log2(min(width, height))) + 1` levels.
pub open spec fn mip_levels_spec(width: nat, height: nat) -> nat {
    log2_floor(if width < height { width } else { height }) + 1
}

proof fn lemma_log2_floor_lt(n: nat, k: nat)
    requires
        1 <= n,
        n < pow2(k),
    ensures
        log2_floor(n) < k,
    decreases n,
{
    vstd::arithmetic::power2::lemma_pow2_pos(k);
    assert(pow2(0) == 1) by {
        vstd::arithmetic::power2::lemma2_to64();
    }
    if n <= 1 {
        assert(k >= 1);
    } else {
        assert(k >= 1);
        assert(pow2(k) == 2 * pow2((k - 1) as nat)) by {
            vstd::arithmetic::power2::lemma_pow2_unfold(k);
        }
        lemma_log2_floor_lt(n / 2, (k - 1) as nat);
    }
}

/// Mip level count for an image with both dimensions at least 1:
/// one base level plus one level per halving of the smaller dimension.
pub fn mip_level_count(width: u32, height: u32) -> (r: u32)
    requires
        width >= 1,
        height >= 1,
    ensures
        r == mip_levels_spec(width as nat, height as nat),
        1 <= r <= 32,
{
    let smaller: u32 = if width < height { width } else { height };
    let mut n: u32 = smaller;
    let mut levels: u32 = 1;
    proof {
        vstd::arithmetic::power2::lemma2_to64();
        lemma_log2_floor_lt(smaller as nat, 32);
    }
    while n > 1
        invariant
            1 <= n <= smaller,
            1 <= smaller,
            levels >= 1,
            (levels - 1) + log2_floor(n as nat) == log2_floor(smaller as nat),
            log2_floor(smaller as nat) < 32,
        decreases n,
    {
        n = n / 2;
        levels = levels + 1;
    }
    levels
}

/// RGBA8 pixel data handed in by the image decoder, bottom row first or
/// top row first as the caller arranged it; the loader only sizes it.
pub struct DecodedImage {
    pub width: u32,
    pub height: u32,
    pub pixels: Vec<u8>,
}

/// Well-formed decoded RGBA8 data: positive dimensions within the device
/// limit and exactly four bytes per pixel.
pub open spec fn image_valid(img: DecodedImage) -> bool {
    &&& 1 <= img.width <= MAX_TEXTURE_DIM
    &&& 1 <= img.height <= MAX_TEXTURE_DIM
    &&& img.pixels@.len() == 4 * img.width * img.height
}

/// Why a texture or cubemap load was rejected before touching the device.
#[derive(Clone, Copy, PartialEq, Eq, Structural, Debug)]
pub enum TextureError {
    /// A decoded image is degenerate: a zero or over-limit dimension, or a
    /// byte count that is not exactly four per pixel.
    InvalidImage,
    /// The six cubemap faces do not all share one width and height.
    FaceSizeMismatch,
    /// The device cannot sample the texture format with linear filtering
    /// under optimal tiling, so the mip chain's blits cannot run.
    LinearBlitUnsupported,
}

/// One image memory barrier over a range of levels and layers.
#[derive(Clone, Copy, PartialEq, Eq, Structural, Debug)]
pub struct TransitionSpec {
    pub old_layout: ImageLayout,
    pub new_layout: ImageLayout,
    pub level_count: u32,
    pub layer_count: u32,
    pub masks: BarrierMasks,
    pub aspect_mask: u32,
}

/// One buffer-to-image copy: the full extent of `layer_count` layers of one
/// mip level, read from the staging buffer at `buffer_offset`.
#[derive(Clone, Copy, PartialEq, Eq, Structural, Debug)]
pub struct CopyRegionSpec {
    pub buffer_offset: u64,
    pub mip_level: u32,
    pub layer_count: u32,
    pub width: u32,
    pub height: u32,
}

/// Dimensionality of an image view.
#[derive(Clone, Copy, PartialEq, Eq, Structural, Debug)]
pub enum ViewType {
    D2,
    Cube,
}

/// Shape of the shader-facing view of an uploaded texture.
#[derive(Clone, Copy, PartialEq, Eq, Structural, Debug)]
pub struct ViewSpec {
    pub view_type: ViewType,
    pub format: Format,
    pub mip_levels: u32,
    pub layer_count: u32,
    pub aspect_mask: u32,
}

/// Sampler settings: linear filtering, repeat addressing, anisotropy on
/// (its amount is a device float the shell supplies), full mip range.
#[derive(Clone, Copy, PartialEq, Eq, Structural, Debug)]
pub struct SamplerSpec {
    pub linear_filter: bool,
    pub repeat_address: bool,
    pub anisotropy_enabled: bool,
    pub max_lod: u32,
}

/// Everything the shell must do, in order, to turn decoded pixels into a
/// sampled, mip-complete texture.
#[derive(Debug)]
pub struct TextureUploadPlan {
    pub width: u32,
    pub height: u32,
    pub mip_levels: u32,
    pub layer_count: u32,
    /// The exact bytes to write into the mapped staging buffer: all layers
    /// back to back.
    pub staging_data: Vec<u8>,
    /// Byte offset of each layer's pixels inside the staging buffer.
    pub layer_offsets: Vec<u64>,
    pub staging: BufferSpec,
    pub image: ImageSpec,
    /// Moves every level and layer from undefined to transfer-destination
    /// before the level-0 copy.
    pub pre_copy_transition: TransitionSpec,
    pub copy: CopyRegionSpec,
    pub mip_commands: Vec<MipCommand>,
    pub view: ViewSpec,
    pub sampler: SamplerSpec,
}

/// What every well-formed upload plan guarantees, shared by the single
/// texture and the cubemap loader: `layers` full copies of a
/// `width x height` RGBA8 image staged host-visibly, an image allocation
/// with the full mip chain, the pre-copy transition, the level-0 copy, and
/// a valid mip generation sequence.
pub open spec fn upload_plan_wf(p: TextureUploadPlan, width: nat, height: nat, layers: nat) -> bool {
    let m = mip_levels_spec(width, height);
    let face_size = 4 * width * height;
    &&& p.width == width
    &&& p.height == height
    &&& p.mip_levels == m
    &&& p.layer_count == layers
    &&& p.staging_data@.len() == layers * face_size
    &&& p.layer_offsets@.len() == layers
    &&& forall|i: int| 0 <= i < layers ==> #[trigger] p.layer_offsets@[i] == i * face_size
    &&& p.staging == (BufferSpec {
        size: (layers * face_size) as u64,
        usage: BUFFER_USAGE_TRANSFER_SRC,
        memory_properties: MEMORY_HOST_VISIBLE | MEMORY_HOST_COHERENT,
    })
    &&& p.image == (ImageSpec {
        width: width as u32,
        height: height as u32,
        mip_levels: m as u32,
        array_layers: layers as u32,
        format: Format::Rgba8Unorm,
        tiling: ImageTiling::Optimal,
        usage: IMAGE_USAGE_TRANSFER_SRC | IMAGE_USAGE_TRANSFER_DST | IMAGE_USAGE_SAMPLED,
        memory_properties: MEMORY_DEVICE_LOCAL,
        sample_count: 1,
        cube_compatible: layers == 6,
    })
    &&& p.pre_copy_transition == (TransitionSpec {
        old_layout: ImageLayout::Undefined,
        new_layout: ImageLayout::TransferDstOptimal,
        level_count: m as u32,
        layer_count: layers as u32,
        masks: transition_masks_spec(ImageLayout::Undefined, ImageLayout::TransferDstOptimal),
        aspect_mask: ASPECT_COLOR,
    })
    &&& p.copy == (CopyRegionSpec {
        buffer_offset: 0,
        mip_level: 0,
        layer_count: layers as u32,
        width: width as u32,
        height: height as u32,
    })
    &&& mip_plan_ok(p.mip_commands@, width, height, m)
    &&& p.view == (ViewSpec {
        view_type: if layers == 6 { ViewType::Cube } else { ViewType::D2 },
        format: Format::Rgba8Unorm,
        mip_levels: m as u32,
        layer_count: layers as u32,
        aspect_mask: ASPECT_COLOR,
    })
    &&& p.sampler == (SamplerSpec {
        linear_filter: true,
        repeat_address: true,
        anisotropy_enabled: true,
        max_lod: m as u32,
    })
}

fn check_image_valid(img: &DecodedImage) -> (r: bool)
    ensures
        r <==> image_valid(*img),
{
    if img.width < 1 || img.width > MAX_TEXTURE_DIM || img.height < 1 || img.height
        > MAX_TEXTURE_DIM {
        return false;
    }
    proof {
        lemma_face_size_bound(img.width as int, img.height as int);
    }
    let expected: u64 = 4u64 * (img.width as u64) * (img.height as u64);
    img.pixels.len() as u64 == expected
}

proof fn lemma_face_size_bound(width: int, height: int)
    requires
        1 <= width <= MAX_TEXTURE_DIM,
        1 <= height <= MAX_TEXTURE_DIM,
    ensures
        4 * width * height <= 0x4000_0000,
{
    assert(4 * width * height <= 0x4000_0000)
        by (nonlinear_arith)
        requires
            1 <= width <= 16384,
            1 <= height <= 16384,
    ;
}

/// Upload plan for one decoded 2D texture; rejected exactly when the
/// decoded data is degenerate or the device's linear-blit probe for the
/// texture format came back negative, before any GPU resource exists.  The
/// staged bytes equal the source bytes, so the level-0 copy reproduces the
/// input pixel for pixel.
pub fn plan_texture_upload(image: DecodedImage, linear_blit_supported: bool) -> (r: Result<
    TextureUploadPlan,
    TextureError,
>)
    ensures
        r is Ok <==> image_valid(image) && linear_blit_supported,
        r matches Ok(p) ==> upload_plan_wf(p, image.width as nat, image.height as nat, 1)
            && p.staging_data@ == image.pixels@,
        r == Err::<TextureUploadPlan, TextureError>(TextureError::InvalidImage) <==> !image_valid(
            image,
        ),
        r == Err::<TextureUploadPlan, TextureError>(TextureError::LinearBlitUnsupported) <==> (
        image_valid(image) && !linear_blit_supported),
{
    if !check_image_valid(&image) {
        return Err(TextureError::InvalidImage);
    }
    if !linear_blit_supported {
        return Err(TextureError::LinearBlitUnsupported);
    }
    let width = image.width;
    let height = image.height;
    let mip_levels = mip_level_count(width, height);
    proof {
        lemma_face_size_bound(width as int, height as int);
    }
    let face_size: u64 = 4u64 * (width as u64) * (height as u64);
    let mut layer_offsets: Vec<u64> = Vec::new();
    layer_offsets.push(0);
    proof {
        let ghost fs = 4 * (width as nat) * (height as nat);
        assert forall|i: int| 0 <= i < 1 implies #[trigger] layer_offsets@[i] == i * fs by {
            assert(i == 0);
            assert(layer_offsets@[0] == 0);
            assert(0 * fs == 0) by (nonlinear_arith);
        }
    }
    let mip_commands = generate_mipmap_commands(width, height, mip_levels, linear_blit_supported);
    Ok(TextureUploadPlan {
        width,
        height,
        mip_levels,
        layer_count: 1,
        staging_data: image.pixels,
        layer_offsets,
        staging: BufferSpec {
            size: face_size,
            usage: BUFFER_USAGE_TRANSFER_SRC,
            memory_properties: MEMORY_HOST_VISIBLE | MEMORY_HOST_COHERENT,
        },
        image: ImageSpec {
            width,
            height,
            mip_levels,
            array_layers: 1,
            format: Format::Rgba8Unorm,
            tiling: ImageTiling::Optimal,
            usage: IMAGE_USAGE_TRANSFER_SRC | IMAGE_USAGE_TRANSFER_DST | IMAGE_USAGE_SAMPLED,
            memory_properties: MEMORY_DEVICE_LOCAL,
            sample_count: 1,
            cube_compatible: false,
        },
        pre_copy_transition: TransitionSpec {
            old_layout: ImageLayout::Undefined,
            new_layout: ImageLayout::TransferDstOptimal,
            level_count: mip_levels,
            layer_count: 1,
            masks: crate::barrier::transition_masks(
                ImageLayout::Undefined,
                ImageLayout::TransferDstOptimal,
            ).unwrap(),
            aspect_mask: ASPECT_COLOR,
        },
        copy: CopyRegionSpec { buffer_offset: 0, mip_level: 0, layer_count: 1, width, height },
        mip_commands,
        view: ViewSpec {
            view_type: ViewType::D2,
            format: Format::Rgba8Unorm,
            mip_levels,
            layer_count: 1,
            aspect_mask: ASPECT_COLOR,
        },
        sampler: SamplerSpec {
            linear_filter: true,
            repeat_address: true,
            anisotropy_enabled: true,
            max_lod: mip_levels,
        },
    })
}

/// All six faces decoded to the same width and height.
pub open spec fn faces_same_size(faces: Seq<DecodedImage>) -> bool {
    forall|i: int|
        0 <= i < faces.len() ==> (#[trigger] faces[i]).width == faces[0].width && faces[i].height
            == faces[0].height
}

/// Upload plan for a six-face cubemap.  Degenerate faces, cross-face size
/// mismatches and a negative linear-blit probe are all rejected while the
/// plan is still being sized, before any GPU resource exists; on success
/// the staging buffer holds the six faces back to back, face `i` at byte
/// offset `i` times the face size.
pub fn plan_cubemap_upload(faces: Vec<DecodedImage>, linear_blit_supported: bool) -> (r: Result<
    TextureUploadPlan,
    TextureError,
>)
    requires
        faces@.len() == 6,
    ensures
        r is Ok <==> (forall|i: int| 0 <= i < 6 ==> image_valid(#[trigger] faces@[i]))
            && faces_same_size(faces@) && linear_blit_supported,
        r matches Ok(p) ==> upload_plan_wf(p, faces@[0].width as nat, faces@[0].height as nat, 6)
            && (forall|i: int|
            0 <= i < 6 ==> p.staging_data@.subrange(
                i * (4 * faces@[0].width * faces@[0].height),
                (i + 1) * (4 * faces@[0].width * faces@[0].height),
            ) == (#[trigger] faces@[i]).pixels@),
        r == Err::<TextureUploadPlan, TextureError>(TextureError::InvalidImage) <==> !(forall|
            i: int,
        | 0 <= i < 6 ==> image_valid(#[trigger] faces@[i])),
        r == Err::<TextureUploadPlan, TextureError>(TextureError::FaceSizeMismatch) <==> (forall|
            i: int,
        | 0 <= i < 6 ==> image_valid(#[trigger] faces@[i])) && !faces_same_size(faces@),
        r == Err::<TextureUploadPlan, TextureError>(TextureError::LinearBlitUnsupported) <==> (
        forall|i: int| 0 <= i < 6 ==> image_valid(#[trigger] faces@[i])) && faces_same_size(faces@)
            && !linear_blit_supported,
{
    let mut i: usize = 0;
    while i < 6
        invariant
            0 <= i <= 6,
            faces@.len() == 6,
            forall|j: int| 0 <= j < i ==> image_valid(#[trigger] faces@[j]),
        decreases 6 - i,
    {
        if !check_image_valid(&faces[i]) {
            return Err(TextureError::InvalidImage);
        }
        i = i + 1;
    }

    let width = faces[0].width;
    let height = faces[0].height;
    let mut i: usize = 1;
    while i < 6
        invariant
            1 <= i <= 6,
            faces@.len() == 6,
            width == faces@[0].width,
            height == faces@[0].height,
            forall|j: int| 0 <= j < 6 ==> image_valid(#[trigger] faces@[j]),
            forall|j: int|
                0 <= j < i ==> (#[trigger] faces@[j]).width == width && faces@[j].height == height,
        decreases 6 - i,
    {
        if faces[i].width != width || faces[i].height != height {
            assert(!faces_same_size(faces@));
            return Err(TextureError::FaceSizeMismatch);
        }
        i = i + 1;
    }
    assert(faces_same_size(faces@));
    if !linear_blit_supported {
        return Err(TextureError::LinearBlitUnsupported);
    }

    let mip_levels = mip_level_count(width, height);
    proof {
        lemma_face_size_bound(width as int, height as int);
    }
    let face_size: u64 = 4u64 * (width as u64) * (height as u64);
    let ghost fs = 4 * (width as nat) * (height as nat);

    let mut staging_data: Vec<u8> = Vec::new();
    let mut layer_offsets: Vec<u64> = Vec::new();
    let mut i: usize = 0;
    while i < 6
        invariant
            0 <= i <= 6,
            faces@.len() == 6,
            width == faces@[0].width,
            height == faces@[0].height,
            fs == 4 * (width as nat) * (height as nat),
            face_size == fs,
            fs <= 0x4000_0000,
            forall|j: int| 0 <= j < 6 ==> image_valid(#[trigger] faces@[j]),
            faces_same_size(faces@),
            staging_data@.len() == i * fs,
            layer_offsets@.len() == i,
            forall|j: int| 0 <= j < i ==> #[trigger] layer_offsets@[j] == j * fs,
            forall|j: int|
                0 <= j < i ==> #[trigger] staging_data@.subrange(j * fs, (j + 1) * fs) == faces@[j].pixels@,
        decreases 6 - i,
    {
        let ghost before = staging_data@;
        proof {
            vstd::arithmetic::mul::lemma_mul_inequality(i as int, 6, fs as int);
        }
        layer_offsets.push((i as u64) * face_size);
        staging_data.extend_from_slice(faces[i].pixels.as_slice());
        proof {
            assert(faces@[i as int].pixels@.len() == fs);
            assert(staging_data@.len() == before.len() + fs);
            assert forall|k: int| 0 <= k < staging_data@.len() implies staging_data@[k] == (
            if k < before.len() {
                before[k]
            } else {
                faces@[i as int].pixels@[k - before.len()]
            }) by {
                if k >= before.len() {
                    assert(cloned::<u8>(
                        faces@[i as int].pixels@[k - before.len()],
                        staging_data@[k],
                    ));
                }
            }
            assert(staging_data@ =~= before + faces@[i as int].pixels@);
            vstd::arithmetic::mul::lemma_mul_is_distributive_add_other_way(
                fs as int,
                i as int,
                1,
            );
            assert((i + 1) * fs == i * fs + fs);
            assert forall|j: int|
                0 <= j < i + 1 implies #[trigger] staging_data@.subrange(j * fs, (j + 1) * fs)
                == faces@[j].pixels@ by {
                vstd::arithmetic::mul::lemma_mul_is_distributive_add_other_way(fs as int, j, 1);
                assert((j + 1) * fs == j * fs + fs);
                if j < i {
                    vstd::arithmetic::mul::lemma_mul_inequality(j + 1, i as int, fs as int);
                    assert(before.subrange(j * fs, (j + 1) * fs) == faces@[j].pixels@);
                    assert(staging_data@.subrange(j * fs, (j + 1) * fs) =~= before.subrange(
                        j * fs,
                        (j + 1) * fs,
                    ));
                } else {
                    assert(staging_data@.subrange(j * fs, (j + 1) * fs) =~= faces@[j].pixels@);
                }
            }
        }
        i = i + 1;
    }

    let mip_commands = generate_mipmap_commands(width, height, mip_levels, linear_blit_supported);
    Ok(TextureUploadPlan {
        width,
        height,
        mip_levels,
        layer_count: 6,
        staging_data,
        layer_offsets,
        staging: BufferSpec {
            size: 6 * face_size,
            usage: BUFFER_USAGE_TRANSFER_SRC,
            memory_properties: MEMORY_HOST_VISIBLE | MEMORY_HOST_COHERENT,
        },
        image: ImageSpec {
            width,
            height,
            mip_levels,
            array_layers: 6,
            format: Format::Rgba8Unorm,
            tiling: ImageTiling::Optimal,
            usage: IMAGE_USAGE_TRANSFER_SRC | IMAGE_USAGE_TRANSFER_DST | IMAGE_USAGE_SAMPLED,
            memory_properties: MEMORY_DEVICE_LOCAL,
            sample_count: 1,
            cube_compatible: true,
        },
        pre_copy_transition: TransitionSpec {
            old_layout: ImageLayout::Undefined,
            new_layout: ImageLayout::TransferDstOptimal,
            level_count: mip_levels,
            layer_count: 6,
            masks: crate::barrier::transition_masks(
                ImageLayout::Undefined,
                ImageLayout::TransferDstOptimal,
            ).unwrap(),
            aspect_mask: ASPECT_COLOR,
        },
        copy: CopyRegionSpec { buffer_offset: 0, mip_level: 0, layer_count: 6, width, height },
        mip_commands,
        view: ViewSpec {
            view_type: ViewType::Cube,
            format: Format::Rgba8Unorm,
            mip_levels,
            layer_count: 6,
            aspect_mask: ASPECT_COLOR,
        },
        sampler: SamplerSpec {
            linear_filter: true,
            repeat_address: true,
            anisotropy_enabled: true,
            max_lod: mip_levels,
        },
    })
}

} // verus!
