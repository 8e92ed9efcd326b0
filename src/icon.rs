//! Procedural 32x32 RGBA microphone icon.
//!
//! Geometry is computed on a half-pixel grid: the centre of pixel `(x, y)`
//! sits at `(2x + 1, 2y + 1)` half-units, so every distance test is an exact
//! integer comparison of squared half-unit lengths (units of 1/4 square pixel).
use vstd::arithmetic::div_mod::lemma_fundamental_div_mod_converse;
use vstd::prelude::*;

verus! {

/// Width and height of the icon in pixels.
pub const ICON_SIZE: u32 = 32;

/// Number of bytes in one RGBA bitmap of the icon.
pub const ICON_BYTES: usize = 4096;

/// One RGBA pixel.
#[derive(Clone, Copy, Debug, PartialEq, Eq)]
pub struct Rgba {
    pub r: u8,
    pub g: u8,
    pub b: u8,
    pub a: u8,
}

pub open spec fn transparent() -> Rgba {
    Rgba { r: 0, g: 0, b: 0, a: 0 }
}

pub open spec fn glyph_color(muted: bool) -> Rgba {
    if muted {
        Rgba { r: 160, g: 160, b: 160, a: 255 }
    } else {
        Rgba { r: 255, g: 255, b: 255, a: 255 }
    }
}

pub open spec fn prohibit_color() -> Rgba {
    Rgba { r: 220, g: 30, b: 30, a: 255 }
}

/// Horizontal offset of the pixel centre from the icon's centre line, in half-units.
pub open spec fn half_dx(x: int) -> int {
    2 * x + 1 - 32
}

pub open spec fn clamp_int(v: int, lo: int, hi: int) -> int {
    if v < lo {
        lo
    } else if v > hi {
        hi
    } else {
        v
    }
}

/// The capsule: points within 4.5 px of the segment from (16, 6) to (16, 12).
pub open spec fn in_capsule(x: int, y: int) -> bool {
    let v = 2 * y + 1;
    let dv = v - clamp_int(v, 12, 24);
    half_dx(x) * half_dx(x) + dv * dv <= 81
}

/// The holder: a ring of radii 5.5 to 7.5 px around (16, 12), below its centre.
pub open spec fn in_holder(x: int, y: int) -> bool {
    let dv = 2 * y + 1 - 24;
    let d2 = half_dx(x) * half_dx(x) + dv * dv;
    dv >= 0 && 121 <= d2 && d2 <= 225
}

/// The stand: at most 1.5 px from the centre line, for 19.5 <= y <= 25.
pub open spec fn in_stand(x: int, y: int) -> bool {
    let v = 2 * y + 1;
    -3 <= half_dx(x) && half_dx(x) <= 3 && 39 <= v && v <= 50
}

/// The base: 10 <= x <= 22 and 25 <= y <= 27.
pub open spec fn in_base(x: int, y: int) -> bool {
    let u = 2 * x + 1;
    let v = 2 * y + 1;
    20 <= u && u <= 44 && 50 <= v && v <= 54
}

/// The microphone glyph: the union of its four parts.
pub open spec fn in_glyph(x: int, y: int) -> bool {
    in_capsule(x, y) || in_holder(x, y) || in_stand(x, y) || in_base(x, y)
}

/// Squared distance of the pixel centre from the icon centre (16, 16), in quarter square pixels.
pub open spec fn centre_d2(x: int, y: int) -> int {
    let du = 2 * x + 1 - 32;
    let dv = 2 * y + 1 - 32;
    du * du + dv * dv
}

/// The prohibition ring: 12.5 to 15.5 px from the icon centre.
pub open spec fn in_ring(x: int, y: int) -> bool {
    625 <= centre_d2(x, y) && centre_d2(x, y) <= 961
}

/// The slash from upper left to lower right, inside the 14 px circle.
pub open spec fn in_slash(x: int, y: int) -> bool {
    -2 <= x - y && x - y <= 2 && centre_d2(x, y) <= 784
}

/// The colour of pixel `(x, y)`: the red overlay, when muted, drawn over the glyph.
pub open spec fn pixel(muted: bool, x: int, y: int) -> Rgba {
    if muted && (in_ring(x, y) || in_slash(x, y)) {
        prohibit_color()
    } else if in_glyph(x, y) {
        glyph_color(muted)
    } else {
        transparent()
    }
}

pub open spec fn channel(p: Rgba, c: int) -> u8 {
    if c == 0 {
        p.r
    } else if c == 1 {
        p.g
    } else if c == 2 {
        p.b
    } else {
        p.a
    }
}

/// Byte `i` of the bitmap: rows top to bottom, pixels left to right, R G B A.
pub open spec fn bitmap_byte(muted: bool, i: int) -> u8 {
    channel(pixel(muted, (i / 4) % 32, (i / 4) / 32), i % 4)
}

/// The whole icon for a mute state, as row-major RGBA bytes.
pub open spec fn bitmap(muted: bool) -> Seq<u8> {
    Seq::new(4096, |i: int| bitmap_byte(muted, i))
}

fn clamp_i32(v: i32, lo: i32, hi: i32) -> (r: i32)
    requires
        lo <= hi,
    ensures
        r == clamp_int(v as int, lo as int, hi as int),
{
    if v < lo {
        lo
    } else if v > hi {
        hi
    } else {
        v
    }
}

/// Whether pixel `(x, y)` belongs to the microphone glyph.
pub fn glyph_contains(x: u32, y: u32) -> (r: bool)
    requires
        x < 32,
        y < 32,
    ensures
        r == in_glyph(x as int, y as int),
{
    let u: i32 = 2 * x as i32 + 1;
    let v: i32 = 2 * y as i32 + 1;
    let du: i32 = u - 32;
    let cv: i32 = v - clamp_i32(v, 12, 24);
    let hv: i32 = v - 24;
    proof {
        lemma_square_bound(du as int);
        lemma_square_bound(cv as int);
        lemma_square_bound(hv as int);
    }
    let capsule = du * du + cv * cv <= 81;
    let hd2: i32 = du * du + hv * hv;
    let holder = hv >= 0 && 121 <= hd2 && hd2 <= 225;
    let stand = -3 <= du && du <= 3 && 39 <= v && v <= 50;
    let base = 20 <= u && u <= 44 && 50 <= v && v <= 54;
    capsule || holder || stand || base
}

/// Whether pixel `(x, y)` belongs to the red prohibition mark.
pub fn prohibit_contains(x: u32, y: u32) -> (r: bool)
    requires
        x < 32,
        y < 32,
    ensures
        r == (in_ring(x as int, y as int) || in_slash(x as int, y as int)),
{
    let du: i32 = 2 * x as i32 + 1 - 32;
    let dv: i32 = 2 * y as i32 + 1 - 32;
    proof {
        lemma_square_bound(du as int);
        lemma_square_bound(dv as int);
    }
    let d2: i32 = du * du + dv * dv;
    let diag: i32 = x as i32 - y as i32;
    let ring = 625 <= d2 && d2 <= 961;
    let slash = -2 <= diag && diag <= 2 && d2 <= 784;
    ring || slash
}

/// The colour of pixel `(x, y)` of the icon for `muted`.
pub fn pixel_color(muted: bool, x: u32, y: u32) -> (r: Rgba)
    requires
        x < 32,
        y < 32,
    ensures
        r == pixel(muted, x as int, y as int),
{
    if muted && prohibit_contains(x, y) {
        Rgba { r: 220, g: 30, b: 30, a: 255 }
    } else if glyph_contains(x, y) {
        if muted {
            Rgba { r: 160, g: 160, b: 160, a: 255 }
        } else {
            Rgba { r: 255, g: 255, b: 255, a: 255 }
        }
    } else {
        Rgba { r: 0, g: 0, b: 0, a: 0 }
    }
}

proof fn lemma_square_bound(a: int)
    requires
        -64 <= a <= 64,
    ensures
        0 <= a * a <= 4096,
{
    assert(0 <= a * a <= 4096) by (nonlinear_arith)
        requires
            -64 <= a <= 64,
    ;
}

proof fn lemma_byte_position(x: int, y: int, c: int)
    requires
        0 <= x < 32,
        0 <= y < 32,
        0 <= c < 4,
    ensures
        ((y * 32 + x) * 4 + c) / 4 == y * 32 + x,
        ((y * 32 + x) * 4 + c) % 4 == c,
        (y * 32 + x) % 32 == x,
        (y * 32 + x) / 32 == y,
{
    lemma_fundamental_div_mod_converse((y * 32 + x) * 4 + c, 4, y * 32 + x, c);
    lemma_fundamental_div_mod_converse(y * 32 + x, 32, y, x);
}

/// Renders the icon for a mute state: a 32x32 RGBA bitmap of the microphone,
/// dimmed and overlaid with a red ring and slash when muted.
pub fn render(muted: bool) -> (r: Vec<u8>)
    ensures
        r@ == bitmap(muted),
        r@.len() == ICON_BYTES,
{
    let mut rgba: Vec<u8> = Vec::with_capacity(ICON_BYTES);
    let mut y: u32 = 0;
    while y < ICON_SIZE
        invariant
            y <= 32,
            rgba@.len() == y * 128,
            forall|i: int| 0 <= i < rgba@.len() ==> rgba@[i] == bitmap_byte(muted, i),
        decreases 32 - y,
    {
        let mut x: u32 = 0;
        while x < ICON_SIZE
            invariant
                y < 32,
                x <= 32,
                rgba@.len() == (y * 32 + x) * 4,
                forall|i: int| 0 <= i < rgba@.len() ==> rgba@[i] == bitmap_byte(muted, i),
            decreases 32 - x,
        {
            let p = pixel_color(muted, x, y);
            proof {
                lemma_byte_position(x as int, y as int, 0);
                lemma_byte_position(x as int, y as int, 1);
                lemma_byte_position(x as int, y as int, 2);
                lemma_byte_position(x as int, y as int, 3);
            }
            rgba.push(p.r);
            rgba.push(p.g);
            rgba.push(p.b);
            rgba.push(p.a);
            x = x + 1;
        }
        y = y + 1;
    }
    assert(rgba@ =~= bitmap(muted));
    rgba
}

/// Rendering depends on the mute state alone: two renders of one state are
/// the same bitmap, byte for byte.
pub proof fn lemma_render_deterministic(muted: bool, first: Seq<u8>, second: Seq<u8>)
    requires
        first == bitmap(muted),
        second == bitmap(muted),
    ensures
        first == second,
        first.len() == 4096,
{
}

/// Whether a pixel is drawn is fixed by the geometry and the mute state: it is
/// opaque exactly where it lies in the glyph or, when muted, in the red mark,
/// and fully transparent elsewhere.
pub proof fn lemma_pixel_membership(muted: bool, x: int, y: int)
    requires
        0 <= x < 32,
        0 <= y < 32,
    ensures
        bitmap(muted)[(y * 32 + x) * 4 + 3] == (if in_glyph(x, y) || (muted && (in_ring(x, y)
            || in_slash(x, y))) {
            255u8
        } else {
            0u8
        }),
{
    lemma_byte_position(x, y, 3);
}

} // verus!
