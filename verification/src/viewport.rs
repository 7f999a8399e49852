//! Integer letterbox viewport: the low-resolution "mid" texture is drawn onto
//! the window surface scaled by the largest whole factor that fits the
//! surface on both axes, and centred, so resizing the window keeps the mid
//! texture's aspect ratio.

use vstd::prelude::*;

verus! {

/// Division rounding toward zero, which is what `/` does on Rust's signed
/// integers.
pub open spec fn trunc_div(a: int, b: int) -> int {
    if a >= 0 {
        if b > 0 { a / b } else { -(a / (-b)) }
    } else {
        if b > 0 { -((-a) / b) } else { (-a) / (-b) }
    }
}

pub open spec fn in_i16(v: int) -> bool {
    i16::MIN <= v <= i16::MAX
}

/// `a / b` on `i16` neither divides by zero nor overflows.
pub open spec fn div_ok(a: int, b: int) -> bool {
    b != 0 && !(a == i16::MIN && b == -1)
}

/// The whole scale factor for a mid texture of `mw` x `mh` on a surface of
/// `sw` x `sh` (all already read as `i16`): the smaller of the whole number
/// of times the texture fits across and the whole number of times it fits
/// down.
pub open spec fn spec_scale(mw: int, mh: int, sw: int, sh: int) -> int {
    let across = trunc_div(sw, mw);
    let down = trunc_div(sh, mh);
    if across <= down { across } else { down }
}

/// The viewport `[x, y, w, h]` as integers.
pub open spec fn spec_viewport(mw: int, mh: int, sw: int, sh: int) -> Seq<int> {
    let k = spec_scale(mw, mh, sw, sh);
    let w = mw * k;
    let h = mh * k;
    seq![trunc_div(sw - w, 2), trunc_div(sh - h, 2), w, h]
}

/// Every step of the computation in `i16` stays within `i16` and never
/// divides by zero; outside this set the computation would panic.
pub open spec fn viewport_computable(mw: int, mh: int, sw: int, sh: int) -> bool {
    let k = spec_scale(mw, mh, sw, sh);
    &&& div_ok(sw, mw)
    &&& div_ok(sh, mh)
    &&& in_i16(mw * k)
    &&& in_i16(mh * k)
    &&& in_i16(sw - mw * k)
    &&& in_i16(sh - mh * k)
}

/// The inputs of `calc_ratio`, read as `i16` the way the computation reads
/// texture and window sizes.
pub open spec fn computable_sizes(mid_w: u32, mid_h: u32, surface_w: u32, surface_h: u32) -> bool {
    viewport_computable(
        (mid_w as i16) as int,
        (mid_h as i16) as int,
        (surface_w as i16) as int,
        (surface_h as i16) as int,
    )
}

pub open spec fn spec_calc_ratio(mid_w: u32, mid_h: u32, surface_w: u32, surface_h: u32) -> Seq<int> {
    spec_viewport(
        (mid_w as i16) as int,
        (mid_h as i16) as int,
        (surface_w as i16) as int,
        (surface_h as i16) as int,
    )
}

proof fn lemma_div_negative_divisor(a: int, b: int)
    requires
        b < 0,
    ensures
        a / b == -(a / (-b)),
{
    assert(a / b == -(a / (-b))) by (nonlinear_arith)
        requires
            b < 0,
    ;
}

proof fn lemma_div_bounds(a: int, b: int)
    requires
        a >= 0,
        b > 0,
    ensures
        0 <= a / b <= a,
{
    assert(0 <= a / b <= a) by (nonlinear_arith)
        requires
            a >= 0,
            b > 0,
    ;
}

/// `a / b` on `i16`, rounding toward zero.
fn div_i16(a: i16, b: i16) -> (r: i16)
    requires
        div_ok(a as int, b as int),
    ensures
        r == trunc_div(a as int, b as int),
{
    if a < 0 && b < 0 {
        let na: i32 = -(a as i32);
        let nb: i32 = -(b as i32);
        let q: i32 = na / nb;
        proof {
            lemma_div_bounds(na as int, nb as int);
        }
        assert(q == (na as int) / (nb as int));
        assert(q <= i16::MAX) by (nonlinear_arith)
            requires
                q == (na as int) / (nb as int),
                1 <= na <= 32768,
                nb >= 1,
                !(na == 32768 && nb == 1),
        {
            if nb >= 2 {
                assert((na as int) / (nb as int) <= (na as int) / 2);
            }
        }
        q as i16
    } else {
        proof {
            if b < 0 {
                lemma_div_negative_divisor(a as int, b as int);
                lemma_div_bounds(a as int, -(b as int));
            } else if a >= 0 {
                lemma_div_bounds(a as int, b as int);
            } else {
                lemma_div_bounds(-(a as int), b as int);
            }
        }
        a / b
    }
}

/// The viewport `[x, y, w, h]` on which the mid texture of `mid_w` x `mid_h`
/// is drawn onto a surface of `surface_w` x `surface_h`: the mid texture is
/// scaled by the largest whole factor that fits both sides and centred.
/// Sizes are read as `i16`.
pub fn calc_ratio(mid_w: u32, mid_h: u32, surface_w: u32, surface_h: u32) -> (r: [i16; 4])
    requires
        computable_sizes(mid_w, mid_h, surface_w, surface_h),
    ensures
        r@.len() == 4,
        forall|i: int| 0 <= i < 4 ==> r@[i] as int == spec_calc_ratio(mid_w, mid_h, surface_w, surface_h)[i],
{
    let mid_w = mid_w as i16;
    let mid_h = mid_h as i16;
    let surface_w = surface_w as i16;
    let surface_h = surface_h as i16;

    let across = div_i16(surface_w, mid_w);
    let down = div_i16(surface_h, mid_h);
    let ratio = if across <= down { across } else { down };

    let w = mid_w * ratio;
    let h = mid_h * ratio;

    let x = div_i16(surface_w - w, 2);
    let y = div_i16(surface_h - h, 2);

    [x, y, w, h]
}

} // verus!

verus! {

/// `calc_ratio` on any sizes: `None` exactly where the computation would
/// divide by zero or overflow `i16`, and otherwise its viewport.
pub fn checked_calc_ratio(mid_w: u32, mid_h: u32, surface_w: u32, surface_h: u32) -> (r: Option<[i16; 4]>)
    ensures
        r is None <==> !computable_sizes(mid_w, mid_h, surface_w, surface_h),
        r matches Some(v) ==> forall|i: int|
            0 <= i < 4 ==> v@[i] as int == spec_calc_ratio(mid_w, mid_h, surface_w, surface_h)[i],
{
    let mw = mid_w as i16;
    let mh = mid_h as i16;
    let sw = surface_w as i16;
    let sh = surface_h as i16;
    if mw == 0 || (sw == i16::MIN && mw == -1) || mh == 0 || (sh == i16::MIN && mh == -1) {
        return None;
    }
    let across = div_i16(sw, mw);
    let down = div_i16(sh, mh);
    let ratio = if across <= down { across } else { down };
    let w = match mw.checked_mul(ratio) {
        Some(w) => w,
        None => return None,
    };
    let h = match mh.checked_mul(ratio) {
        Some(h) => h,
        None => return None,
    };
    if sw.checked_sub(w).is_none() || sh.checked_sub(h).is_none() {
        return None;
    }
    Some(calc_ratio(mid_w, mid_h, surface_w, surface_h))
}

} // verus!

verus! {

/// The mid texture is drawn scaled by one whole factor on both axes, so the
/// viewport keeps the mid texture's aspect ratio.
pub proof fn lemma_viewport_keeps_aspect(mid_w: u32, mid_h: u32, surface_w: u32, surface_h: u32)
    requires
        computable_sizes(mid_w, mid_h, surface_w, surface_h),
    ensures
        ({
            let mw = (mid_w as i16) as int;
            let mh = (mid_h as i16) as int;
            let k = spec_scale(mw, mh, (surface_w as i16) as int, (surface_h as i16) as int);
            let v = spec_calc_ratio(mid_w, mid_h, surface_w, surface_h);
            &&& v[2] == mw * k
            &&& v[3] == mh * k
            &&& v[2] * mh == v[3] * mw
        }),
{
    let mw = (mid_w as i16) as int;
    let mh = (mid_h as i16) as int;
    let k = spec_scale(mw, mh, (surface_w as i16) as int, (surface_h as i16) as int);
    assert((mw * k) * mh == (mh * k) * mw) by (nonlinear_arith);
}

/// The viewport is centred on the surface: the space left over on each side
/// differs by at most one pixel.
pub proof fn lemma_viewport_centred(mid_w: u32, mid_h: u32, surface_w: u32, surface_h: u32)
    requires
        computable_sizes(mid_w, mid_h, surface_w, surface_h),
    ensures
        ({
            let sw = (surface_w as i16) as int;
            let sh = (surface_h as i16) as int;
            let v = spec_calc_ratio(mid_w, mid_h, surface_w, surface_h);
            &&& -1 <= (sw - v[2]) - 2 * v[0] <= 1
            &&& -1 <= (sh - v[3]) - 2 * v[1] <= 1
        }),
{
}

proof fn lemma_mul_div_le(a: int, b: int)
    requires
        a > 0,
        b >= 0,
    ensures
        0 <= a * (b / a) <= b,
{
    assert(0 <= a * (b / a) <= b) by (nonlinear_arith)
        requires
            a > 0,
            b >= 0,
    {
        vstd::arithmetic::div_mod::lemma_fundamental_div_mod(b, a);
    }
}

proof fn lemma_div_mul_next(a: int, b: int)
    requires
        a > 0,
        b >= 0,
    ensures
        (b / a + 1) * a > b,
{
    assert((b / a + 1) * a > b) by (nonlinear_arith)
        requires
            a > 0,
            b >= 0,
    {
        vstd::arithmetic::div_mod::lemma_fundamental_div_mod(b, a);
    }
}

/// With positive texture and surface sizes the viewport lies within the
/// surface on both axes, and its scale is the largest that does: one more
/// step would overflow the width or the height.
pub proof fn lemma_viewport_fits(mid_w: u32, mid_h: u32, surface_w: u32, surface_h: u32)
    requires
        computable_sizes(mid_w, mid_h, surface_w, surface_h),
        (mid_w as i16) > 0,
        (mid_h as i16) > 0,
        (surface_w as i16) > 0,
        (surface_h as i16) > 0,
    ensures
        ({
            let mw = (mid_w as i16) as int;
            let mh = (mid_h as i16) as int;
            let sw = (surface_w as i16) as int;
            let sh = (surface_h as i16) as int;
            let k = spec_scale(mw, mh, sw, sh);
            let v = spec_calc_ratio(mid_w, mid_h, surface_w, surface_h);
            &&& 0 <= v[0] && v[0] + v[2] <= sw
            &&& 0 <= v[1] && v[1] + v[3] <= sh
            &&& k >= 0
            &&& (k + 1) * mw > sw || (k + 1) * mh > sh
        }),
{
    let mw = (mid_w as i16) as int;
    let mh = (mid_h as i16) as int;
    let sw = (surface_w as i16) as int;
    let sh = (surface_h as i16) as int;
    let k = spec_scale(mw, mh, sw, sh);
    lemma_mul_div_le(mw, sw);
    lemma_mul_div_le(mh, sh);
    lemma_div_bounds(sw, mw);
    lemma_div_bounds(sh, mh);
    lemma_div_mul_next(mw, sw);
    lemma_div_mul_next(mh, sh);
    assert(mw * k <= mw * (sw / mw)) by (nonlinear_arith)
        requires
            mw > 0,
            0 <= k <= sw / mw,
    ;
    assert(mh * k <= mh * (sh / mh)) by (nonlinear_arith)
        requires
            mh > 0,
            0 <= k <= sh / mh,
    ;
    assert(0 <= mw * k && 0 <= mh * k) by (nonlinear_arith)
        requires
            mw > 0,
            mh > 0,
            k >= 0,
    ;
}

} // verus!
