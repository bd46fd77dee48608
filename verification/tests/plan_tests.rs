use std::io::Cursor;

use image::{ImageFormat, RgbImage};
use proxy_grid::config::LayoutConfig;
use proxy_grid::image_info::ImageError;
use proxy_grid::plan::plan_document;

fn scenario_config() -> LayoutConfig {
    LayoutConfig::new(210_000, 279_000, 61_500, 86_900, 1_000, 300).unwrap()
}

fn png_bytes(w: u32, h: u32) -> Vec<u8> {
    let img = RgbImage::new(w, h);
    let mut buf = Vec::new();
    img.write_to(&mut Cursor::new(&mut buf), ImageFormat::Png).unwrap();
    buf
}

#[test]
fn ten_images_occupy_two_pages() {
    // The scenario: ten decodable images of arbitrary differing pixel
    // sizes spill onto a second page after nine cells.
    let cfg = scenario_config();
    let images: Vec<Vec<u8>> = (0..10).map(|i| png_bytes(40 + 13 * i, 60 + 7 * i)).collect();
    let plan = plan_document(&cfg, &images).unwrap();
    assert_eq!(plan.pages, 2);
    assert_eq!(plan.placements.len(), 10);

    // Images 0..9 fill all nine cells of page 0 in row-major order.
    for i in 0..9 {
        let p = &plan.placements[i];
        assert_eq!(p.page, 0);
        assert_eq!(p.row, i / 3);
        assert_eq!(p.col, i % 3);
    }
    // Image 9 opens page 1 at row 0, column 0.
    let p9 = &plan.placements[9];
    assert_eq!(p9.page, 1);
    assert_eq!(p9.row, 0);
    assert_eq!(p9.col, 0);
    assert!(p9.starts_new_page());
}

#[test]
fn empty_input_yields_zero_pages() {
    let cfg = scenario_config();
    let plan = plan_document(&cfg, &Vec::new()).unwrap();
    assert_eq!(plan.pages, 0);
    assert!(plan.placements.is_empty());
}

#[test]
fn undecodable_first_image_aborts_the_document() {
    let cfg = scenario_config();
    let mut images = vec![b"definitely not an image".to_vec()];
    images.push(png_bytes(50, 70));
    let r = plan_document(&cfg, &images);
    assert_eq!(r.unwrap_err(), ImageError::UnsupportedFormat);
}

#[test]
fn corrupt_first_image_aborts_with_decode_error() {
    let cfg = scenario_config();
    let images = vec![vec![0xFF, 0xD8, 0xFF, 0x12, 0x34], png_bytes(50, 70)];
    let r = plan_document(&cfg, &images);
    assert_eq!(r.unwrap_err(), ImageError::DecodeError);
}

#[test]
fn bad_image_in_the_middle_aborts_the_document() {
    let cfg = scenario_config();
    let images = vec![
        png_bytes(50, 70),
        png_bytes(51, 71),
        b"broken".to_vec(),
        png_bytes(52, 72),
    ];
    let r = plan_document(&cfg, &images);
    assert_eq!(r.unwrap_err(), ImageError::UnsupportedFormat);
}

#[test]
fn mixed_pixel_sizes_share_the_drawn_size() {
    let cfg = scenario_config();
    let sizes: [(u32, u32); 3] = [(40, 60), (400, 600), (123, 456)];
    let images: Vec<Vec<u8>> = sizes.iter().map(|&(w, h)| png_bytes(w, h)).collect();
    let plan = plan_document(&cfg, &images).unwrap();
    for (p, &(w, h)) in plan.placements.iter().zip(sizes.iter()) {
        // scale * native physical size == card size, as exact rationals:
        // num * (px * 25400) == card * (den * dpi), checked in integers.
        let sx = &p.scale_x;
        let sy = &p.scale_y;
        assert_eq!(
            sx.num as u128 * (w as u128 * 25_400),
            cfg.card_width_um as u128 * (sx.den as u128 * cfg.dpi as u128)
        );
        assert_eq!(
            sy.num as u128 * (h as u128 * 25_400),
            cfg.card_height_um as u128 * (sy.den as u128 * cfg.dpi as u128)
        );
    }
}
