use battery_icon::canvas::{Canvas, NUM_PIXELS};
use battery_icon::layout::{
    centered_x, font_size_px, percentage_text, render_mode, severity_color, top_offset_px,
    RenderMode, FONT_SIZE_100_PX, FONT_SIZE_PX, ICON_SIZE, TOP_OFFSET_100_PX, TOP_OFFSET_PX,
};
use battery_icon::font::validate_font_data;
use battery_icon::pixel::Rgba8;
use battery_icon::render::{compose_icon, generate_battery_icon, RenderError};

const WHITE: Rgba8 = Rgba8 { r: 255, g: 255, b: 255, a: 255 };
const CLEAR: Rgba8 = Rgba8 { r: 0, g: 0, b: 0, a: 0 };
const RED: Rgba8 = Rgba8 { r: 255, g: 0, b: 0, a: 255 };
const AMBER: Rgba8 = Rgba8 { r: 255, g: 120, b: 0, a: 255 };

/// A transparent glyph canvas with white ink of the given coverage at the
/// given flat pixel indices, the shape the rasterizer hands the renderer.
fn glyph_canvas(inked: &[(usize, u8)]) -> Canvas {
    let mut pixels = vec![CLEAR; NUM_PIXELS];
    for &(i, cov) in inked {
        pixels[i] = Rgba8 { r: cov, g: cov, b: cov, a: cov };
    }
    Canvas::from_pixels(pixels).expect("pixel count matches the canvas")
}

#[test]
fn mode_is_color_up_to_50_and_template_above() {
    for p in 0..=50u8 {
        assert_eq!(render_mode(p), RenderMode::Color);
        assert!(!render_mode(p).is_template());
    }
    for p in 51..=100u8 {
        assert_eq!(render_mode(p), RenderMode::Template);
        assert!(render_mode(p).is_template());
    }
}

#[test]
fn severity_color_is_red_up_to_20_and_amber_above() {
    for p in 0..=20u8 {
        assert_eq!(severity_color(p), RED);
    }
    for p in 21..=50u8 {
        assert_eq!(severity_color(p), AMBER);
    }
}

#[test]
fn text_is_exactly_the_decimal_digits() {
    assert_eq!(percentage_text(0), b"0".to_vec());
    assert_eq!(percentage_text(7), b"7".to_vec());
    assert_eq!(percentage_text(10), b"10".to_vec());
    assert_eq!(percentage_text(35), b"35".to_vec());
    assert_eq!(percentage_text(99), b"99".to_vec());
    assert_eq!(percentage_text(100), b"100".to_vec());
}

#[test]
fn font_size_for_100_is_strictly_smaller() {
    assert_eq!(font_size_px(100), FONT_SIZE_100_PX);
    for p in 0..=99u8 {
        assert_eq!(font_size_px(p), FONT_SIZE_PX);
        assert!(font_size_px(100) < font_size_px(p));
    }
}

#[test]
fn top_offset_is_larger_for_100() {
    assert_eq!(top_offset_px(100), TOP_OFFSET_100_PX);
    for p in 0..=99u8 {
        assert_eq!(top_offset_px(p), TOP_OFFSET_PX);
        assert!(top_offset_px(100) > top_offset_px(p));
    }
}

#[test]
fn centering_floors_and_never_goes_negative() {
    assert_eq!(centered_x(0), 22);
    assert_eq!(centered_x(30), 7);
    assert_eq!(centered_x(31), 6);
    assert_eq!(centered_x(44), 0);
    assert_eq!(centered_x(45), 0);
    assert_eq!(centered_x(u32::MAX), 0);
}

#[test]
fn canvas_rejects_wrong_pixel_counts() {
    assert!(Canvas::from_pixels(vec![CLEAR; NUM_PIXELS - 1]).is_none());
    assert!(Canvas::from_pixels(vec![CLEAR; NUM_PIXELS + 1]).is_none());
    assert!(Canvas::from_pixels(vec![CLEAR; NUM_PIXELS]).is_some());
}

#[test]
fn template_cutout_punches_inked_pixels_only() {
    let glyph = glyph_canvas(&[(0, 255), (17, 1), (NUM_PIXELS - 1, 90)]);
    let icon = compose_icon(75, WHITE, &glyph);
    assert_eq!(icon.pixel_at(0), CLEAR);
    assert_eq!(icon.pixel_at(17), CLEAR);
    assert_eq!(icon.pixel_at(NUM_PIXELS - 1), CLEAR);
    for i in [1usize, 16, 18, 100, NUM_PIXELS - 2] {
        assert_eq!(icon.pixel_at(i), WHITE);
    }
}

#[test]
fn color_mode_blends_white_over_red_background() {
    let glyph = glyph_canvas(&[(5, 255), (6, 128)]);
    let icon = compose_icon(5, WHITE, &glyph);
    // Untouched pixels keep the bright-red background.
    assert_eq!(icon.pixel_at(0), RED);
    // Full coverage turns the pixel white.
    assert_eq!(icon.pixel_at(5), WHITE);
    // Half coverage lands between the background and white: for red,
    // green and blue move by 128 * 255 / 255 = 128 rounded down.
    let half = icon.pixel_at(6);
    assert_eq!(half.r, 255);
    assert_eq!(half.g, 128);
    assert_eq!(half.b, 128);
    assert_eq!(half.a, 255);
}

#[test]
fn color_mode_is_opaque_everywhere() {
    let glyph = glyph_canvas(&[(3, 1), (40, 200), (1000, 255)]);
    for p in [0u8, 20, 21, 35, 50] {
        let icon = compose_icon(p, WHITE, &glyph);
        for i in 0..NUM_PIXELS {
            assert_eq!(icon.pixel_at(i).a, 255);
        }
    }
}

#[test]
fn encoded_icon_decodes_to_44_by_44_rgba() {
    let glyph = glyph_canvas(&[(90, 255)]);
    for p in [5u8, 35, 75, 100] {
        let png = generate_battery_icon(p, WHITE, &glyph).expect("encoding succeeds");
        let decoded = image::load_from_memory(&png).expect("the bytes are a valid image");
        assert_eq!(decoded.width(), ICON_SIZE);
        assert_eq!(decoded.height(), ICON_SIZE);
        let rgba = decoded.to_rgba8();
        assert_eq!(rgba.as_raw().len(), NUM_PIXELS * 4);
    }
}

#[test]
fn encode_round_trip_preserves_every_pixel() {
    let glyph = glyph_canvas(&[(0, 255), (50, 77), (2 * 44 + 3, 128)]);
    for p in [5u8, 35, 75, 100] {
        let icon = compose_icon(p, WHITE, &glyph);
        let png = generate_battery_icon(p, WHITE, &glyph).expect("encoding succeeds");
        let decoded = image::load_from_memory(&png).expect("valid image").to_rgba8();
        for i in 0..NUM_PIXELS {
            let want = icon.pixel_at(i);
            let got = decoded.get_pixel((i % 44) as u32, (i / 44) as u32);
            assert_eq!([want.r, want.g, want.b, want.a], got.0);
        }
    }
}

#[test]
fn scenario_5_percent_red_large_font() {
    assert_eq!(render_mode(5), RenderMode::Color);
    assert_eq!(severity_color(5), RED);
    assert_eq!(font_size_px(5), FONT_SIZE_PX);
    assert_eq!(percentage_text(5), b"5".to_vec());
    let icon = compose_icon(5, WHITE, &glyph_canvas(&[]));
    assert_eq!(icon.pixel_at(22 * 44 + 22), RED);
}

#[test]
fn scenario_35_percent_amber() {
    assert_eq!(render_mode(35), RenderMode::Color);
    assert_eq!(severity_color(35), AMBER);
    assert_eq!(percentage_text(35), b"35".to_vec());
    let icon = compose_icon(35, WHITE, &glyph_canvas(&[]));
    assert_eq!(icon.pixel_at(0), AMBER);
}

#[test]
fn scenario_75_percent_template_cutout() {
    assert_eq!(render_mode(75), RenderMode::Template);
    assert_eq!(top_offset_px(75), TOP_OFFSET_PX);
    assert_eq!(percentage_text(75), b"75".to_vec());
    let glyph = glyph_canvas(&[(200, 255)]);
    let icon = compose_icon(75, WHITE, &glyph);
    assert_eq!(icon.pixel_at(200), CLEAR);
    assert_eq!(icon.pixel_at(201), WHITE);
}

#[test]
fn scenario_100_percent_smaller_font_larger_offset() {
    assert_eq!(render_mode(100), RenderMode::Template);
    assert_eq!(font_size_px(100), FONT_SIZE_100_PX);
    assert_eq!(top_offset_px(100), TOP_OFFSET_100_PX);
    assert_eq!(percentage_text(100), b"100".to_vec());
}

#[test]
fn unparsable_font_data_is_font_unavailable() {
    assert_eq!(
        validate_font_data(&Vec::new()),
        Err(RenderError::FontUnavailable)
    );
    assert_eq!(
        validate_font_data(&vec![0u8, 1, 2, 3, 4, 5, 6, 7]),
        Err(RenderError::FontUnavailable)
    );
}
