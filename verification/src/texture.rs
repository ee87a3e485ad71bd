//! Texture upload planning: decode a PNG held in host memory, and compute
//! the dimensions, mip-chain and staging size for its upload. The decode
//! itself is the png crate's work; every computation on its results is
//! verified here. The image and blit commands that carry the plan out are
//! the caller's.

use vstd::arithmetic::power2::{lemma2_to64, lemma_pow2_unfold, pow2};
use vstd::prelude::*;

use crate::extent::Extent2D;

verus! {

/// Bits per sample of a decoded image, as the PNG header declares them.
#[derive(Clone, Copy, PartialEq, Eq, Structural, Debug)]
pub enum BitDepth {
    One,
    Two,
    Four,
    Eight,
    Sixteen,
}

pub open spec fn spec_bit_count(depth: BitDepth) -> u32 {
    match depth {
        BitDepth::One => 1,
        BitDepth::Two => 2,
        BitDepth::Four => 4,
        BitDepth::Eight => 8,
        BitDepth::Sixteen => 16,
    }
}

/// The number of bits one sample of this depth occupies.
pub fn bit_count(depth: BitDepth) -> (r: u32)
    ensures
        r == spec_bit_count(depth),
{
    match depth {
        BitDepth::One => 1,
        BitDepth::Two => 2,
        BitDepth::Four => 4,
        BitDepth::Eight => 8,
        BitDepth::Sixteen => 16,
    }
}

/// The largest `e` with `2^e <= n` (and `0` for `n == 0`).
pub open spec fn spec_floor_log2(n: nat) -> nat
    decreases n,
{
    if n <= 1 {
        0
    } else {
        1 + spec_floor_log2(n / 2)
    }
}

/// Halving below `2^(k+1)` stays below `2^k`, so the floor logarithm of
/// anything below `2^(k+1)` is at most `k`.
pub proof fn lemma_floor_log2_bound(n: nat, k: nat)
    requires
        n < pow2(k + 1),
    ensures
        spec_floor_log2(n) <= k,
    decreases n,
{
    if n > 1 {
        if k == 0 {
            lemma2_to64();
        } else {
            lemma_pow2_unfold(k + 1);
            lemma_floor_log2_bound(n / 2, (k - 1) as nat);
        }
    }
}

/// The larger of a texture's two dimensions.
pub open spec fn spec_max_dim(width: u32, height: u32) -> u32 {
    if width >= height {
        width
    } else {
        height
    }
}

/// Levels of the mip chain: how often the largest dimension can be halved,
/// plus one level for the original image.
pub open spec fn spec_mip_level_count(width: u32, height: u32) -> nat {
    spec_floor_log2(spec_max_dim(width, height) as nat) + 1
}

/// The number of mip levels for an image of the given dimensions.
pub fn mip_level_count(width: u32, height: u32) -> (r: u32)
    requires
        1 <= width,
        1 <= height,
    ensures
        r == spec_mip_level_count(width, height),
        1 <= r <= 32,
{
    proof {
        lemma2_to64();
        lemma_floor_log2_bound(spec_max_dim(width, height) as nat, 31);
    }
    let mut m: u32 = if width >= height {
        width
    } else {
        height
    };
    let mut levels: u32 = 1;
    while m > 1
        invariant
            1 <= m,
            1 <= levels,
            spec_floor_log2(m as nat) + levels == spec_mip_level_count(width, height),
            spec_mip_level_count(width, height) <= 32,
        decreases m,
    {
        m = m / 2;
        levels = levels + 1;
    }
    levels
}

/// One halving step of a mip dimension, clamped so a dimension never
/// vanishes.
pub open spec fn spec_half_dim(d: u32) -> u32 {
    if d > 1 {
        (d / 2) as u32
    } else {
        1
    }
}

/// A dimension after `level` halvings.
pub open spec fn spec_mip_dim(d: u32, level: nat) -> u32
    decreases level,
{
    if level == 0 {
        d
    } else {
        spec_half_dim(spec_mip_dim(d, (level - 1) as nat))
    }
}

/// The extent of every level of the mip chain, from the full image down;
/// each level halves both dimensions of the previous one, clamped at one.
pub fn mip_chain(width: u32, height: u32) -> (r: Vec<Extent2D>)
    requires
        1 <= width,
        1 <= height,
    ensures
        r@.len() == spec_mip_level_count(width, height),
        forall|i: int|
            0 <= i < r@.len() ==> (#[trigger] r@[i]).width == spec_mip_dim(width, i as nat)
                && r@[i].height == spec_mip_dim(height, i as nat),
{
    let levels = mip_level_count(width, height);
    let mut out: Vec<Extent2D> = Vec::new();
    let mut w = width;
    let mut h = height;
    let mut i: u32 = 0;
    while i < levels
        invariant
            i <= levels,
            out@.len() == i,
            w == spec_mip_dim(width, i as nat),
            h == spec_mip_dim(height, i as nat),
            forall|j: int|
                0 <= j < i ==> (#[trigger] out@[j]).width == spec_mip_dim(width, j as nat)
                    && out@[j].height == spec_mip_dim(height, j as nat),
        decreases levels - i,
    {
        out.push(Extent2D { width: w, height: h });
        w = if w > 1 {
            w / 2
        } else {
            1
        };
        h = if h > 1 {
            h / 2
        } else {
            1
        };
        i = i + 1;
    }
    out
}

/// A decoded PNG as the texture path consumes it: dimensions, declared bit
/// depth, and the raw decoded bytes.
#[derive(Debug)]
pub struct PngImage {
    pub width: u32,
    pub height: u32,
    pub bit_depth: BitDepth,
    pub pixels: Vec<u8>,
}

/// What decoding a byte string yields, when it yields anything: the PNG
/// decoder's output is a function of the bytes alone.
pub ghost struct PngData {
    pub width: u32,
    pub height: u32,
    pub depth_bits: u32,
    pub pixels: Seq<u8>,
}

pub uninterp spec fn png_data_of(bytes: Seq<u8>) -> Option<PngData>;

/// Why a texture cannot be planned.
#[derive(Clone, Copy, PartialEq, Eq, Structural, Debug)]
pub enum TextureError {
    /// The bytes are not a PNG the decoder accepts.
    DecodeFailed,
    /// The decoded image has a zero dimension.
    EmptyImage,
}

/// Relies on png's `Decoder::read_info` and `Reader::next_frame`: decoding
/// a byte string in memory succeeds or fails, and yields which dimensions,
/// bit depth and bytes, as a function of the input bytes alone.
#[verifier::external_body]
fn decode_png(bytes: &Vec<u8>) -> (r: Result<PngImage, TextureError>)
    ensures
        r is Ok <==> png_data_of(bytes@) is Some,
        r matches Ok(img) ==> (png_data_of(bytes@) matches Some(d) && img.width == d.width
            && img.height == d.height && spec_bit_count(img.bit_depth) == d.depth_bits
            && img.pixels@ == d.pixels),
        r matches Err(e) ==> e == TextureError::DecodeFailed,
{
    let decoder = png::Decoder::new(std::io::Cursor::new(bytes.as_slice()));
    let mut reader = decoder.read_info().map_err(|_| TextureError::DecodeFailed)?;
    let mut pixels = vec![0u8; reader.output_buffer_size()];
    reader.next_frame(&mut pixels).map_err(|_| TextureError::DecodeFailed)?;
    let (width, height) = (reader.info().width, reader.info().height);
    let bit_depth = match reader.info().bit_depth {
        png::BitDepth::One => BitDepth::One,
        png::BitDepth::Two => BitDepth::Two,
        png::BitDepth::Four => BitDepth::Four,
        png::BitDepth::Eight => BitDepth::Eight,
        png::BitDepth::Sixteen => BitDepth::Sixteen,
    };
    Ok(PngImage { width, height, bit_depth, pixels })
}

/// Everything the upload commands need to know about one texture: its
/// extent, its full mip chain, and the size of the staging buffer that
/// receives the decoded bytes.
#[derive(Debug)]
pub struct TexturePlan {
    pub extent: Extent2D,
    pub mip_levels: u32,
    pub mip_extents: Vec<Extent2D>,
    pub upload_len: usize,
}

impl TexturePlan {
    /// The plan's internal consistency.
    pub open spec fn wf(self) -> bool {
        &&& 1 <= self.extent.width
        &&& 1 <= self.extent.height
        &&& self.mip_levels == spec_mip_level_count(self.extent.width, self.extent.height)
        &&& self.mip_extents@.len() == self.mip_levels
        &&& forall|i: int|
            0 <= i < self.mip_extents@.len() ==> (#[trigger] self.mip_extents@[i]).width
                == spec_mip_dim(self.extent.width, i as nat) && self.mip_extents@[i].height
                == spec_mip_dim(self.extent.height, i as nat)
    }
}

/// Plan the upload of an already decoded image: reject zero dimensions,
/// else record the extent, the mip chain, and the exact staging size.
pub fn plan_texture_upload(img: &PngImage) -> (r: Result<TexturePlan, TextureError>)
    ensures
        r is Ok <==> (1 <= img.width && 1 <= img.height),
        (r matches Ok(p) ==> {
            &&& p.extent == (Extent2D { width: img.width, height: img.height })
            &&& p.upload_len == img.pixels@.len()
            &&& p.wf()
        }),
        r is Err ==> r == Err::<TexturePlan, TextureError>(TextureError::EmptyImage),
{
    if img.width == 0 || img.height == 0 {
        return Err(TextureError::EmptyImage);
    }
    let extent = Extent2D { width: img.width, height: img.height };
    let mip_levels = mip_level_count(img.width, img.height);
    let mip_extents = mip_chain(img.width, img.height);
    Ok(TexturePlan { extent, mip_levels, mip_extents, upload_len: img.pixels.len() })
}

/// Decode a PNG held in host memory and plan its upload. Succeeds exactly
/// when the bytes decode and the image has no zero dimension.
pub fn create_texture_plan(bytes: &Vec<u8>) -> (r: Result<TexturePlan, TextureError>)
    ensures
        r is Ok <==> (png_data_of(bytes@) matches Some(d) && 1 <= d.width && 1 <= d.height),
        (r matches Ok(p) ==> png_data_of(bytes@) matches Some(d) && p.extent == (Extent2D {
            width: d.width,
            height: d.height,
        }) && p.upload_len == d.pixels.len() && p.wf()),
        r == Err::<TexturePlan, TextureError>(TextureError::DecodeFailed) <==> png_data_of(bytes@)
            is None,
        r == Err::<TexturePlan, TextureError>(TextureError::EmptyImage) <==> (png_data_of(bytes@)
            matches Some(d) && (d.width == 0 || d.height == 0)),
{
    let img = match decode_png(bytes) {
        Ok(img) => img,
        Err(e) => {
            return Err(e);
        },
    };
    plan_texture_upload(&img)
}

} // verus!
