//! End-to-end conversions through the pivot, one test per documented
//! behavior. Channel values are fixed-point units of 1e-10 (SCALE is 1.0).
use colorspaces::colorspaces::lab::{fx_lab_f, fx_lab_f_inv};
use colorspaces::{
    AdobeRgb, Color, ColorSpace, DisplayP3, Hsl, Hsv, Hwb, Lab, Lch, Luv, Oklab, Oklch, Rec2020,
    Srgb, Xyz, SCALE,
};

const S: i128 = SCALE;

fn close(a: i128, b: i128, tol: i128) -> bool {
    (a - b).abs() <= tol
}

#[test]
fn color_new_and_opaque() {
    let c = Color::new(1, 2, 3, 4);
    assert_eq!(c, Color { r: 1, g: 2, b: 3, a: 4 });
    let o = Color::opaque(5, 6, 7);
    assert_eq!(o, Color { r: 5, g: 6, b: 7, a: S });
}

#[test]
fn srgb_white_maps_to_white_exactly() {
    let w = Srgb { r: S, g: S, b: S, a: S };
    let c = w.to_color();
    assert_eq!(c, Color { r: S, g: S, b: S, a: S });
    assert_eq!(Srgb::from_color(&c), w);
}

#[test]
fn srgb_black_maps_to_black_exactly() {
    let k = Srgb { r: 0, g: 0, b: 0, a: 0 };
    let c = k.to_color();
    assert_eq!(c, Color { r: 0, g: 0, b: 0, a: 0 });
    assert_eq!(Srgb::from_color(&c), k);
}

#[test]
fn srgb_midpoint_decode_exact_value() {
    // ((0.5 + 0.055) / 1.055)^2.4 at unit resolution.
    let c = Srgb { r: S / 2, g: 0, b: 0, a: S }.to_color();
    assert_eq!(c.r, 2_140_411_395);
    assert_eq!(c.g, 0);
}

#[test]
fn srgb_midpoint_round_trip() {
    // The 2.4-power round trip of 0.5 cannot be exact on a 1e-10 grid (the
    // true decode is off-grid); it lands 36 units short, pinned here.
    let v = Srgb { r: S / 2, g: S / 2, b: S / 2, a: S };
    let back = Srgb::from_color(&v.to_color());
    assert_eq!(back.r, 4_999_999_964);
    assert!(close(back.r, S / 2, 100));
    assert!(close(back.g, S / 2, 100));
    assert!(close(back.b, S / 2, 100));
    assert_eq!(back.a, S);
}

#[test]
fn srgb_linear_segment_round_trip_bound() {
    // On the linear segments the pair inverts to within thirteen units.
    let c: i128 = 300_000_000;
    let v = Srgb { r: c, g: 0, b: c, a: S };
    let back = Srgb::from_color(&v.to_color());
    assert!(c - 13 <= back.r && back.r <= c);
    assert_eq!(back.g, 0);
    assert!(c - 13 <= back.b && back.b <= c);
}

#[test]
fn lab_transfer_pair_unit_and_bounds() {
    // One is an exact fixed point of both directions.
    assert_eq!(fx_lab_f(S), S);
    assert_eq!(fx_lab_f_inv(S), S);
    // Linear segment: inverse to within one unit.
    let t_lin: i128 = 50_000_000;
    let back = fx_lab_f_inv(fx_lab_f(t_lin));
    assert!(t_lin - 1 <= back && back <= t_lin);
    // Cube-root branch: inverse to within seven units.
    let t_cube: i128 = 5_000_000_000;
    let back = fx_lab_f_inv(fx_lab_f(t_cube));
    assert!(t_cube - 7 <= back && back <= t_cube);
}

#[test]
fn srgb_round_trip_in_gamut() {
    let v = Srgb { r: 2_000_000_000, g: 7_000_000_000, b: 9_000_000_000, a: 5_000_000_000 };
    let back = Srgb::from_color(&v.to_color());
    assert!(close(back.r, v.r, 100));
    assert!(close(back.g, v.g, 100));
    assert!(close(back.b, v.b, 100));
    assert_eq!(back.a, v.a);
}

#[test]
fn xyz_of_white_pivot_exact() {
    let c = Color::opaque(S, S, S);
    let xyz = Xyz::from_color(&c);
    assert_eq!(xyz.x, 9_505_000_000);
    assert_eq!(xyz.y, 10_000_000_000);
    assert_eq!(xyz.z, 10_890_000_000);
    assert_eq!(xyz.alpha, S);
}

#[test]
fn xyz_round_trip() {
    let v = Xyz { x: 3_000_000_000, y: 4_000_000_000, z: 2_000_000_000, alpha: S };
    let back = Xyz::from_color(&v.to_color());
    assert!(close(back.x, v.x, 1_000_000));
    assert!(close(back.y, v.y, 1_000_000));
    assert!(close(back.z, v.z, 1_000_000));
}

#[test]
fn hsl_pure_red_exact() {
    // h = 0, s = 1, l = 0.5 is exactly pure red.
    let c = Hsl { h: 0, s: S, l: S / 2, a: S }.to_color();
    assert_eq!(c, Color { r: S, g: 0, b: 0, a: S });
}

#[test]
fn hsl_round_trip() {
    let v = Hsl { h: 120 * S, s: 5_000_000_000, l: 4_000_000_000, a: S };
    let back = Hsl::from_color(&v.to_color());
    assert!(close(back.h, v.h, 10_000));
    assert!(close(back.s, v.s, 10_000));
    assert!(close(back.l, v.l, 10_000));
}

#[test]
fn hsl_hue_wraps_inside_the_turn_for_hdr_pivots() {
    // A wide channel spread with a tiny blue excess truncates the hue
    // fraction to a full turn; the result must wrap to 0, not report 360.
    let v = Hsl::from_color(&Color::opaque(25_000_000_000, 0, 1));
    assert_eq!(v.h, 0);
    assert!(v.h >= 0 && v.h < 360 * S);
}

#[test]
fn hsl_achromatic_gray_pivot() {
    let c = Color::opaque(S / 2, S / 2, S / 2);
    let v = Hsl::from_color(&c);
    assert_eq!(v.h, 0);
    assert_eq!(v.s, 0);
    assert_eq!(v.l, S / 2);
}

#[test]
fn hsv_pure_blue_exact() {
    let c = Hsv { h: 240 * S, s: S, v: S, a: S }.to_color();
    assert_eq!(c, Color { r: 0, g: 0, b: S, a: S });
}

#[test]
fn hsv_round_trip_exact() {
    let v = Hsv { h: 210 * S, s: 7_000_000_000, v: 8_000_000_000, a: S };
    let back = Hsv::from_color(&v.to_color());
    assert_eq!(back, v);
}

#[test]
fn hsv_negative_sector_normalizes_to_330() {
    // max == R with G < B drives the sector remainder negative; the result
    // must still come out at 330 degrees, not -30.
    let c = Color::opaque(S, 0, S / 2);
    let v = Hsv::from_color(&c);
    assert_eq!(v.h, 330 * S);
    assert_eq!(v.s, S);
    assert_eq!(v.v, S);
}

#[test]
fn hsv_achromatic_gray_pivot() {
    let v = Hsv::from_color(&Color::opaque(S / 2, S / 2, S / 2));
    assert_eq!(v.h, 0);
    assert_eq!(v.s, 0);
    assert_eq!(v.v, S / 2);
}

#[test]
fn hwb_degenerate_sum_yields_gray() {
    // w + b = 1.2 >= 1 collapses to w / (w + b) = 0.5 on every channel.
    let c = Hwb { h: 0, w: 6_000_000_000, b: 6_000_000_000, a: S }.to_color();
    assert_eq!(c, Color { r: S / 2, g: S / 2, b: S / 2, a: S });
}

#[test]
fn hwb_round_trip() {
    let v = Hwb { h: 90 * S, w: 2_000_000_000, b: 3_000_000_000, a: S };
    let back = Hwb::from_color(&v.to_color());
    assert!(close(back.h, v.h, 10_000));
    assert!(close(back.w, v.w, 100));
    assert!(close(back.b, v.b, 100));
}

#[test]
fn hwb_extremes_from_pivot_exact() {
    let v = Hwb::from_color(&Color::opaque(7_000_000_000, 4_500_000_000, 2_000_000_000));
    assert_eq!(v.w, 2_000_000_000);
    assert_eq!(v.b, 3_000_000_000);
}

#[test]
fn lab_round_trip() {
    let v = Lab { l: 50 * S, a: 20 * S, b: -30 * S, alpha: S };
    let back = Lab::from_color(&v.to_color());
    assert!(close(back.l, v.l, 50_000_000));
    assert!(close(back.a, v.a, 50_000_000));
    assert!(close(back.b, v.b, 50_000_000));
}

#[test]
fn lab_of_white_is_nearly_achromatic() {
    let v = Lab::from_color(&Color::opaque(S, S, S));
    assert_eq!(v.l, 100 * S);
    assert!(v.a.abs() < 200_000_000);
    assert!(v.b.abs() < 200_000_000);
}

#[test]
fn lch_negative_hue_normalizes_to_330() {
    let v = Lch { l: 50 * S, c: 30 * S, h: -30 * S, a: S };
    let back = Lch::from_color(&v.to_color());
    assert!(close(back.h, 330 * S, 10_000_000));
    assert!(close(back.c, v.c, 100_000_000));
    assert!(close(back.l, v.l, 100_000_000));
}

#[test]
fn lch_hue_reported_in_range() {
    let back = Lch::from_color(&Color::opaque(1_000_000_000, 9_000_000_000, 4_000_000_000));
    assert!(back.h >= 0 && back.h < 360 * S);
    assert!(back.c >= 0);
}

#[test]
fn lch_zero_chroma_ignores_hue() {
    // At zero chroma the given hue cannot reach the output.
    let with_hue = Lch { l: 50 * S, c: 0, h: 123 * S, a: S }.to_color();
    let no_hue = Lch { l: 50 * S, c: 0, h: 0, a: S }.to_color();
    assert_eq!(with_hue, no_hue);
}

#[test]
fn oklab_round_trip() {
    let v = Oklab { l: 5_000_000_000, a: 1_000_000_000, b: -500_000_000, alpha: S };
    let back = Oklab::from_color(&v.to_color());
    assert!(close(back.l, v.l, 1_000));
    assert!(close(back.a, v.a, 1_000));
    assert!(close(back.b, v.b, 1_000));
    assert_eq!(back.alpha, S);
}

#[test]
fn oklab_clamps_hdr_pivot() {
    let v = Oklab::from_color(&Color::new(15_000_000_000, -2_000_000_000, S, 12_000_000_000));
    assert!(0 <= v.l && v.l <= S);
    assert!(-5_000_000_000 <= v.a && v.a <= 5_000_000_000);
    assert!(-5_000_000_000 <= v.b && v.b <= 5_000_000_000);
    assert_eq!(v.alpha, S);
}

#[test]
fn oklab_to_color_output_clamped() {
    let c = Oklab { l: S, a: 5_000_000_000, b: -5_000_000_000, alpha: 2 * S }.to_color();
    assert!(0 <= c.r && c.r <= S);
    assert!(0 <= c.g && c.g <= S);
    assert!(0 <= c.b && c.b <= S);
    assert_eq!(c.a, S);
}

#[test]
fn oklch_negative_hue_normalizes_to_330() {
    let v = Oklch { l: 5_000_000_000, c: 1_000_000_000, h: -30 * S, alpha: S };
    let back = Oklch::from_color(&v.to_color());
    assert!(close(back.h, 330 * S, 1_000_000));
    assert!(close(back.c, v.c, 10_000));
    assert!(close(back.l, v.l, 10_000));
}

#[test]
fn oklch_hue_reported_in_range() {
    let back = Oklch::from_color(&Color::opaque(9_000_000_000, 2_000_000_000, 6_000_000_000));
    assert!(back.h >= 0 && back.h < 360 * S);
    assert!(back.c >= 0);
}

#[test]
fn oklch_default_is_opaque_black() {
    let d = Oklch::default();
    assert_eq!(d, Oklch { l: 0, c: 0, h: 0, alpha: S });
}

#[test]
fn adobe_rgb_round_trip() {
    let v = AdobeRgb { r: 6_000_000_000, g: 4_000_000_000, b: 8_000_000_000, a: S };
    let back = AdobeRgb::from_color(&v.to_color());
    assert!(close(back.r, v.r, 1_000_000));
    assert!(close(back.g, v.g, 1_000_000));
    assert!(close(back.b, v.b, 1_000_000));
}

#[test]
fn adobe_rgb_negative_base_guarded_to_zero() {
    // A negative channel would be an undefined fractional power; the guard
    // sends it to zero, so the result equals the all-zero input's.
    let neg = AdobeRgb { r: -5_000_000_000, g: 0, b: 0, a: S }.to_color();
    let zero = AdobeRgb { r: 0, g: 0, b: 0, a: S }.to_color();
    assert_eq!(neg, zero);
}

#[test]
fn rec2020_clamps_before_gamma() {
    let over = Rec2020 { r: 15_000_000_000, g: 5_000_000_000, b: -1, a: S }.to_color();
    let edge = Rec2020 { r: S, g: 5_000_000_000, b: 0, a: S }.to_color();
    assert_eq!(over, edge);
}

#[test]
fn rec2020_round_trip() {
    let v = Rec2020 { r: 6_000_000_000, g: 4_000_000_000, b: 8_000_000_000, a: S };
    let back = Rec2020::from_color(&v.to_color());
    assert!(close(back.r, v.r, 1_000_000));
    assert!(close(back.g, v.g, 1_000_000));
    assert!(close(back.b, v.b, 1_000_000));
}

#[test]
fn display_p3_round_trip() {
    let v = DisplayP3 { r: 6_000_000_000, g: 4_000_000_000, b: 8_000_000_000, a: S };
    let back = DisplayP3::from_color(&v.to_color());
    assert!(close(back.r, v.r, 1_000_000));
    assert!(close(back.g, v.g, 1_000_000));
    assert!(close(back.b, v.b, 1_000_000));
    assert_eq!(back.a, S);
}

#[test]
fn display_p3_gamut_edge_round_trip() {
    // At the gamut edge the bridge matrices dominate the error.
    let v = DisplayP3 { r: 0, g: S, b: S, a: S };
    let back = DisplayP3::from_color(&v.to_color());
    assert!(close(back.r, v.r, 10_000_000));
    assert!(close(back.g, v.g, 10_000_000));
    assert!(close(back.b, v.b, 10_000_000));
}

#[test]
fn luv_round_trip() {
    let v = Luv { l: 50 * S, u: 30 * S, v: -20 * S, alpha: S };
    let back = Luv::from_color(&v.to_color());
    assert!(close(back.l, v.l, 100_000_000));
    assert!(close(back.u, v.u, 100_000_000));
    assert!(close(back.v, v.v, 100_000_000));
}

#[test]
fn luv_zero_lightness_is_black() {
    let c = Luv { l: 0, u: 0, v: 0, alpha: S }.to_color();
    assert_eq!(c, Color { r: 0, g: 0, b: 0, a: S });
}

#[test]
fn lab_linear_branch_round_trip() {
    // Dark enough that both directions stay on the linear segment of f.
    let v = Lab { l: 2 * S, a: S, b: -S, alpha: S };
    let back = Lab::from_color(&v.to_color());
    assert!(close(back.l, v.l, 10_000_000));
    assert!(close(back.a, v.a, 10_000_000));
    assert!(close(back.b, v.b, 10_000_000));
}

#[test]
fn luv_linear_branch_round_trip() {
    // L below 8 exercises the 903.3 linear lightness form both ways.
    let v = Luv { l: 5 * S, u: 2 * S, v: -S, alpha: S };
    let back = Luv::from_color(&v.to_color());
    assert!(close(back.l, v.l, 10_000_000));
    assert!(close(back.u, v.u, 10_000_000));
    assert!(close(back.v, v.v, 10_000_000));
}

#[test]
fn hsv_full_turn_wraps_to_zero() {
    let turned = Hsv { h: 360 * S, s: S, v: S, a: S }.to_color();
    let zero = Hsv { h: 0, s: S, v: S, a: S }.to_color();
    assert_eq!(turned, zero);
}

#[test]
fn hwb_near_total_blackness_guard() {
    // Value collapses to one unit, below the guard: saturation falls to
    // zero instead of dividing by it.
    let c = Hwb { h: 123 * S, w: 0, b: S - 1, a: S }.to_color();
    assert_eq!(c, Color { r: 1, g: 1, b: 1, a: S });
}

#[test]
fn oklch_quarter_turn_round_trip() {
    let v = Oklch { l: 5_000_000_000, c: 1_000_000_000, h: 90 * S, alpha: S };
    let back = Oklch::from_color(&v.to_color());
    assert!(close(back.h, 90 * S, 1_000_000));
}

#[test]
fn trait_dispatch_matches_inherent_methods() {
    let v = Srgb { r: 3_000_000_000, g: 6_000_000_000, b: 9_000_000_000, a: S };
    let via_trait = ColorSpace::to_color(&v);
    assert_eq!(via_trait, v.to_color());
    let back: Srgb = ColorSpace::from_color(&via_trait);
    assert_eq!(back, Srgb::from_color(&via_trait));
}

#[test]
fn cross_space_composition_through_pivot() {
    // Pure red in HSL lands on pure red in sRGB gamma space.
    let c = Hsl { h: 0, s: S, l: S / 2, a: S }.to_color();
    let srgb = Srgb::from_color(&c);
    assert_eq!(srgb, Srgb { r: S, g: 0, b: 0, a: S });
}
