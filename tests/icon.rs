use muter::icon::{glyph_contains, pixel_color, prohibit_contains, render, Rgba, ICON_BYTES};

fn px(bitmap: &[u8], x: usize, y: usize) -> [u8; 4] {
    let i = (y * 32 + x) * 4;
    [bitmap[i], bitmap[i + 1], bitmap[i + 2], bitmap[i + 3]]
}

const CLEAR: [u8; 4] = [0, 0, 0, 0];
const WHITE: [u8; 4] = [255, 255, 255, 255];
const GRAY: [u8; 4] = [160, 160, 160, 255];
const RED: [u8; 4] = [220, 30, 30, 255];

#[test]
fn render_is_deterministic() {
    for muted in [false, true] {
        let a = render(muted);
        let b = render(muted);
        assert_eq!(a, b);
    }
}

#[test]
fn pixel_membership_is_stable_across_renders() {
    for muted in [false, true] {
        let a = render(muted);
        let b = render(muted);
        for i in (3..ICON_BYTES).step_by(4) {
            assert_eq!(a[i] == 255, b[i] == 255);
            assert!(a[i] == 255 || a[i] == 0);
        }
    }
}

#[test]
fn render_has_icon_size() {
    assert_eq!(render(false).len(), 32 * 32 * 4);
    assert_eq!(render(true).len(), 32 * 32 * 4);
}

#[test]
fn unmuted_icon_is_white_glyph() {
    let b = render(false);
    assert_eq!(px(&b, 0, 0), CLEAR);
    assert_eq!(px(&b, 31, 31), CLEAR);
    assert_eq!(px(&b, 16, 4), WHITE);
    assert_eq!(px(&b, 16, 2), WHITE);
    assert_eq!(px(&b, 9, 13), WHITE);
    assert_eq!(px(&b, 16, 22), WHITE);
    assert_eq!(px(&b, 10, 25), WHITE);
    assert_eq!(px(&b, 21, 26), WHITE);
    assert_eq!(px(&b, 16, 16), CLEAR);
    assert_eq!(px(&b, 1, 16), CLEAR);
    let opaque = (3..ICON_BYTES).step_by(4).filter(|&i| b[i] == 255).count();
    assert_eq!(opaque, 210);
    let sum: u64 = b.iter().map(|&v| v as u64).sum();
    assert_eq!(sum, 214200);
}

#[test]
fn muted_icon_is_dimmed_with_red_mark() {
    let b = render(true);
    assert_eq!(px(&b, 0, 0), CLEAR);
    assert_eq!(px(&b, 16, 4), GRAY);
    assert_eq!(px(&b, 9, 13), GRAY);
    assert_eq!(px(&b, 16, 22), GRAY);
    assert_eq!(px(&b, 10, 25), GRAY);
    assert_eq!(px(&b, 16, 16), RED);
    assert_eq!(px(&b, 1, 16), RED);
    // the overlay is drawn over the glyph
    assert_eq!(px(&b, 16, 2), RED);
    let opaque = (3..ICON_BYTES).step_by(4).filter(|&i| b[i] == 255).count();
    assert_eq!(opaque, 506);
    let red = (0..ICON_BYTES).step_by(4).filter(|&i| b[i..i + 4] == RED).count();
    assert_eq!(red, 344);
    let sum: u64 = b.iter().map(|&v| v as u64).sum();
    assert_eq!(sum, 303110);
}

#[test]
fn shape_predicates() {
    assert!(glyph_contains(16, 4));
    assert!(!glyph_contains(16, 16));
    assert!(glyph_contains(14, 20));
    assert!(!glyph_contains(13, 20));
    assert!(prohibit_contains(16, 16));
    assert!(prohibit_contains(1, 16));
    assert!(!prohibit_contains(0, 0));
    assert!(!prohibit_contains(16, 8));
}

#[test]
fn pixel_color_follows_state() {
    assert_eq!(pixel_color(false, 16, 4), Rgba { r: 255, g: 255, b: 255, a: 255 });
    assert_eq!(pixel_color(true, 16, 4), Rgba { r: 160, g: 160, b: 160, a: 255 });
    assert_eq!(pixel_color(true, 16, 16), Rgba { r: 220, g: 30, b: 30, a: 255 });
    assert_eq!(pixel_color(false, 16, 16), Rgba { r: 0, g: 0, b: 0, a: 0 });
}
