use matrixgen::ecc::EccLevel;
use matrixgen::encode::{generate_data_matrix, generate_qr, GenerateError};
use matrixgen::raster::{rasterize, raster_fits_in_memory, ModuleGrid, Raster};
use matrixgen::request::Request;

fn pixel(img: &Raster, x: u32, y: u32) -> u8 {
    img.pixels[(y * img.width + x) as usize]
}

#[test]
fn qr_hello_high_is_256_square() {
    let req = Request::from_args(
        Some("HELLO".to_string()),
        Some("out.png".to_string()),
        true,
        false,
        Some(256),
        Some("h".to_string()),
    )
    .unwrap();
    let img = req.generate().unwrap();
    assert_eq!((img.width, img.height), (256, 256));
    assert_eq!(img.pixels.len(), 256 * 256);
    assert!(img.pixels.iter().all(|&p| p == 0 || p == 255));
    assert!(img.pixels.iter().any(|&p| p == 0));
    assert!(img.pixels.iter().any(|&p| p == 255));
}

#[test]
fn data_matrix_hi_has_white_border() {
    let req = Request::from_args(
        Some("HI".to_string()),
        Some("out.png".to_string()),
        false,
        true,
        Some(10),
        None,
    )
    .unwrap();
    let img = req.generate().unwrap();
    // The smallest square symbol, 10 by 10 modules, holds "HI".
    assert_eq!((img.width, img.height), (120, 120));
    for y in 0..img.height {
        for x in 0..img.width {
            if x < 10 || y < 10 || x >= 110 || y >= 110 {
                assert_eq!(pixel(&img, x, y), 255);
            }
        }
    }
    // The finder pattern: the left column and bottom row are dark.
    assert_eq!(pixel(&img, 10, 60), 0);
    assert_eq!(pixel(&img, 60, 109), 0);
}

#[test]
fn oversized_payloads_fail() {
    let long = "A".repeat(8000);
    assert_eq!(generate_qr(&long, EccLevel::Low, 1024).err(), Some(GenerateError::DataTooLong));
    assert_eq!(generate_data_matrix(&long, 5).err(), Some(GenerateError::DataTooLong));
}

#[test]
fn qr_capacity_depends_on_level() {
    // Version 40 holds 4296 alphanumeric characters at the low level only.
    let text = "A".repeat(4000);
    assert!(generate_qr(&text, EccLevel::Low, 2000).is_ok());
    assert_eq!(generate_qr(&text, EccLevel::High, 2000).err(), Some(GenerateError::DataTooLong));
}

#[test]
fn qr_too_small_to_draw_fails() {
    assert_eq!(generate_qr("HELLO", EccLevel::Medium, 10).err(), Some(GenerateError::RenderFailed));
}

#[test]
fn data_matrix_default_block() {
    let img = generate_data_matrix("HI", 5).unwrap();
    assert_eq!((img.width, img.height), (60, 60));
}

#[test]
fn data_matrix_zero_block_is_empty() {
    let img = generate_data_matrix("HI", 0).unwrap();
    assert_eq!((img.width, img.height), (0, 0));
    assert!(img.pixels.is_empty());
}

#[test]
fn data_matrix_too_large_image_fails() {
    assert_eq!(generate_data_matrix("HI", u32::MAX).err(), Some(GenerateError::ImageTooLarge));
}

#[test]
fn rasterize_places_modules_inside_border() {
    let grid = ModuleGrid { width: 2, height: 1, modules: vec![true, false] };
    let img = rasterize(&grid, 2);
    assert_eq!((img.width, img.height), (8, 6));
    let expected: Vec<u8> = vec![
        255, 255, 255, 255, 255, 255, 255, 255, //
        255, 255, 255, 255, 255, 255, 255, 255, //
        255, 255, 0, 0, 255, 255, 255, 255, //
        255, 255, 0, 0, 255, 255, 255, 255, //
        255, 255, 255, 255, 255, 255, 255, 255, //
        255, 255, 255, 255, 255, 255, 255, 255, //
    ];
    assert_eq!(img.pixels, expected);
}

#[test]
fn rasterize_dimensions() {
    let grid = ModuleGrid { width: 3, height: 5, modules: vec![false; 15] };
    let img = rasterize(&grid, 7);
    assert_eq!((img.width, img.height), (35, 49));
    assert!(img.pixels.iter().all(|&p| p == 255));
}

#[test]
fn raster_size_limits() {
    assert!(raster_fits_in_memory(144, 144, 1000));
    assert!(raster_fits_in_memory(10, 10, 0));
    assert!(!raster_fits_in_memory(10, 10, u32::MAX));
    assert!(!raster_fits_in_memory(usize::MAX, 1, 1));
}

#[test]
fn grid_module_lookup() {
    let grid = ModuleGrid { width: 2, height: 2, modules: vec![false, true, true, false] };
    assert!(grid.is_dark(1, 0));
    assert!(grid.is_dark(0, 1));
    assert!(!grid.is_dark(1, 1));
}

#[test]
fn qr_equal_arguments_give_equal_images() {
    let a = generate_qr("HELLO", EccLevel::High, 256).unwrap();
    let b = generate_qr("HELLO", EccLevel::High, 256).unwrap();
    assert_eq!(a.pixels, b.pixels);
    let c = generate_qr("HELLO", EccLevel::Low, 256).unwrap();
    assert_eq!(c.pixels.len(), a.pixels.len());
}

#[test]
fn qr_largest_symbol_draws_at_185() {
    // Beyond the 4158 alphanumeric characters of version 39 at the low level:
    // version 40, 177 modules, with a four-module quiet zone on each side.
    let text = "A".repeat(4200);
    let img = generate_qr(&text, EccLevel::Low, 185).unwrap();
    assert_eq!((img.width, img.height), (185, 185));
    assert_eq!(generate_qr(&text, EccLevel::Low, 184).err(), Some(GenerateError::RenderFailed));
}
