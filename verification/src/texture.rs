//! Sizes of the textures the renderers draw onto and copy images into.

use image::GenericImageView;
use vstd::prelude::*;

verus! {

/// Width and height of a texture in texels.
#[derive(Debug, Clone, Copy, PartialEq, Eq, Structural)]
pub struct Size {
    pub width: u32,
    pub height: u32,
}

impl Size {
    /// This size with both sides divided by `factor` (rounding down), as
    /// used for the smaller textures of a blur chain.
    pub fn divided(&self, factor: u32) -> (s: Size)
        requires
            factor > 0,
        ensures
            s.width == self.width / factor,
            s.height == self.height / factor,
    {
        Size { width: self.width / factor, height: self.height / factor }
    }

    /// The height divided by `zones` (rounding down), width unchanged: the
    /// strip of the image that a water reflection covers.
    pub fn height_divided(&self, zones: u32) -> (s: Size)
        requires
            zones > 0,
        ensures
            s.width == self.width,
            s.height == self.height / zones,
    {
        Size { width: self.width, height: self.height / zones }
    }

    /// Bytes per row and rows per image when copying an RGBA8 image of this
    /// size into a texture: four bytes per texel.
    pub fn rgba8_copy_layout(&self) -> (l: (u32, u32))
        requires
            4 * self.width <= u32::MAX,
        ensures
            l.0 == 4 * self.width,
            l.1 == self.height,
    {
        (4 * self.width, self.height)
    }
}

/// Calls `image::load_from_memory` to decode an encoded image (PNG), then
/// `dimensions`, `to_rgba8` and `into_raw` on the result. What is claimed:
/// on success the RGBA8 pixel buffer holds at least four bytes for each of
/// the `width` x `height` texels; a failed decode gives `None`. Which pixels
/// come out is not stated: decoding may go through format hooks registered
/// in the process, so it is not a function of the bytes alone.
#[verifier::external_body]
pub fn decode_rgba8(bytes: &[u8]) -> (r: Option<(Vec<u8>, u32, u32)>)
    ensures
        r matches Some((px, w, h)) ==> px@.len() >= 4 * w * h,
{
    match image::load_from_memory(bytes) {
        Ok(img) => {
            let (w, h) = img.dimensions();
            Some((img.to_rgba8().into_raw(), w, h))
        },
        Err(_) => None,
    }
}

/// The upload built from a decoded image `(pixels, width, height)`: the
/// same pixels, the image's size, and the copy layout (four bytes per texel
/// in a row, one row per texel row). `None` when nothing was decoded, or
/// when a row of four bytes per texel does not fit a `u32`.
pub fn upload_from_decoded(decoded: Option<(Vec<u8>, u32, u32)>) -> (r: Option<(Vec<u8>, Size, (u32, u32))>)
    ensures
        match decoded {
            None => r is None,
            Some((px, w, h)) => if w > u32::MAX / 4 {
                r is None
            } else {
                r matches Some((p, s, l)) && p@ == px@ && s == (Size { width: w, height: h })
                    && l.0 == 4 * w && l.1 == h
            },
        },
{
    match decoded {
        Some((px, w, h)) => {
            if w > u32::MAX / 4 {
                return None;
            }
            let size = Size { width: w, height: h };
            let layout = size.rgba8_copy_layout();
            Some((px, size, layout))
        },
        None => None,
    }
}

/// The data needed to upload an encoded image into a texture: its RGBA8
/// pixels, its size, and the copy layout (bytes per row, rows per image),
/// as `upload_from_decoded` builds them from the decoded image. `None` when
/// the image does not decode, or when its row of four bytes per texel does
/// not fit a `u32`.
pub fn diffuse_upload(bytes: &[u8]) -> (r: Option<(Vec<u8>, Size, (u32, u32))>)
    ensures
        r matches Some((px, s, l)) ==> {
            &&& px@.len() >= 4 * s.width * s.height
            &&& l.0 == 4 * s.width
            &&& l.1 == s.height
        },
{
    upload_from_decoded(decode_rgba8(bytes))
}

/// The sizes of the blur chain under a base size: three textures halved
/// each time, then three going back up, the last at the base size.
pub fn blur_chain(base: Size) -> (chain: Vec<Size>)
    ensures
        chain@.len() == 6,
        chain@[0] == (Size { width: base.width / 2, height: base.height / 2 }),
        chain@[1] == (Size { width: base.width / 4, height: base.height / 4 }),
        chain@[2] == (Size { width: base.width / 8, height: base.height / 8 }),
        chain@[3] == chain@[1],
        chain@[4] == chain@[0],
        chain@[5] == base,
{
    let mut chain: Vec<Size> = Vec::new();
    chain.push(base.divided(2));
    chain.push(base.divided(4));
    chain.push(base.divided(8));
    chain.push(base.divided(4));
    chain.push(base.divided(2));
    chain.push(base);
    chain
}

/// The level of each texture of the glow chain, numbered 0 (the bright
/// source, at the base size), 1 to 3 (down1 to down3) and 4 to 6 (up1 to
/// up3). A texture of level `l` is the base size divided by `2^l`.
pub open spec fn blur_level(texture: int) -> int {
    if texture <= 3 {
        texture
    } else {
        6 - texture
    }
}

/// `2^level` for the levels of the glow chain.
pub open spec fn level_divisor(level: int) -> int {
    if level == 0 {
        1
    } else if level == 1 {
        2
    } else if level == 2 {
        4
    } else {
        8
    }
}

/// One pass of the glow chain: it draws into texture `target`, sampling
/// texture `first`, and on the way back up blending in texture `second`.
#[derive(Debug, Clone, Copy, PartialEq, Eq, Structural)]
pub struct BlurPass {
    pub target: usize,
    pub first: usize,
    pub second: Option<usize>,
}

pub open spec fn spec_blur_passes() -> Seq<BlurPass> {
    seq![
        BlurPass { target: 1, first: 0, second: None },
        BlurPass { target: 2, first: 1, second: None },
        BlurPass { target: 3, first: 2, second: None },
        BlurPass { target: 4, first: 2, second: Some(3) },
        BlurPass { target: 5, first: 4, second: Some(1) },
        BlurPass { target: 6, first: 5, second: Some(0) },
    ]
}

/// The passes of the glow chain, in the order they are recorded: down1,
/// down2 and down3 each sample the texture before; up1 blends down2 with
/// down3, up2 blends up1 with down1, up3 blends up2 with the source.
pub fn blur_passes() -> (r: Vec<BlurPass>)
    ensures
        r@ == spec_blur_passes(),
{
    let r: Vec<BlurPass> = vec![
        BlurPass { target: 1, first: 0, second: None },
        BlurPass { target: 2, first: 1, second: None },
        BlurPass { target: 3, first: 2, second: None },
        BlurPass { target: 4, first: 2, second: Some(3) },
        BlurPass { target: 5, first: 4, second: Some(1) },
        BlurPass { target: 6, first: 5, second: Some(0) },
    ];
    assert(r@ =~= spec_blur_passes());
    r
}

/// The glow chain's passes fit its texture sizes: pass `i` draws texture
/// `i + 1` from textures already drawn; each pass down samples the texture
/// one level larger, and each pass up blends a texture of its own level with
/// one of the next smaller level. Texture `t` of the chain from `blur_chain`
/// (held at index `t - 1`) is the base size divided by `2^level(t)`.
pub proof fn lemma_blur_passes_fit_sizes(base: Size, chain: Seq<Size>)
    requires
        chain.len() == 6,
        chain[0] == (Size { width: base.width / 2, height: base.height / 2 }),
        chain[1] == (Size { width: base.width / 4, height: base.height / 4 }),
        chain[2] == (Size { width: base.width / 8, height: base.height / 8 }),
        chain[3] == chain[1],
        chain[4] == chain[0],
        chain[5] == base,
    ensures
        spec_blur_passes().len() == 6,
        forall|i: int| 0 <= i < 6 ==> {
            let p = #[trigger] spec_blur_passes()[i];
            let l = blur_level(p.target as int);
            &&& p.target == i + 1
            &&& p.first < p.target
            &&& match p.second {
                None => blur_level(p.first as int) == l - 1,
                Some(s) => {
                    &&& s < p.target
                    &&& (blur_level(p.first as int) == l && blur_level(s as int) == l + 1)
                        || (blur_level(p.first as int) == l + 1 && blur_level(s as int) == l)
                },
            }
        },
        forall|t: int| 1 <= t <= 6 ==> {
            &&& (#[trigger] chain[t - 1]).width == base.width as int / level_divisor(blur_level(t))
            &&& chain[t - 1].height == base.height as int / level_divisor(blur_level(t))
        },
{
    assert forall|t: int| 1 <= t <= 6 implies {
        &&& (#[trigger] chain[t - 1]).width == base.width as int / level_divisor(blur_level(t))
        &&& chain[t - 1].height == base.height as int / level_divisor(blur_level(t))
    } by {
        if t == 1 {
        } else if t == 2 {
        } else if t == 3 {
        } else if t == 4 {
        } else if t == 5 {
        } else {
        }
    }
}

} // verus!
