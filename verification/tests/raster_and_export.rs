use warper::export::{export_dimensions, export_file_name, next_export_index};
use warper::raster::{Rgba, assemble_image, pixel_grid};

#[test]
fn pixel_grid_is_row_major() {
    let v = pixel_grid(3, 2);
    assert_eq!(v, vec![(0, 0), (1, 0), (2, 0), (0, 1), (1, 1), (2, 1)]);
    assert_eq!(pixel_grid(2, 0), vec![]);
    assert_eq!(pixel_grid(1, 3), vec![(0, 0), (0, 1), (0, 2)]);
}

#[test]
fn assemble_packs_four_bytes_per_pixel_in_order() {
    let colors = vec![
        Rgba { r: 1, g: 2, b: 3, a: 4 },
        Rgba { r: 250, g: 0, b: 128, a: 255 },
    ];
    let bytes = assemble_image(&colors, 2, 1);
    assert_eq!(bytes, vec![1, 2, 3, 4, 250, 0, 128, 255]);
}

#[test]
fn rendered_buffer_length_is_width_height_four() {
    let w = 7u32;
    let h = 5u32;
    let colors = vec![Rgba { r: 9, g: 9, b: 9, a: 255 }; (w * h) as usize];
    let bytes = assemble_image(&colors, w, h);
    assert_eq!(bytes.len(), (w * h * 4) as usize);
}

#[test]
fn assemble_is_deterministic() {
    let colors = vec![
        Rgba { r: 10, g: 20, b: 30, a: 40 },
        Rgba { r: 50, g: 60, b: 70, a: 80 },
        Rgba { r: 90, g: 100, b: 110, a: 120 },
    ];
    let once = assemble_image(&colors, 3, 1);
    let twice = assemble_image(&colors, 3, 1);
    assert_eq!(once, twice);
}

#[test]
fn export_names_probe_the_smallest_free_index() {
    assert_eq!(next_export_index(&vec![0, 1]), 2);
    assert_eq!(export_file_name(2), "warp_2.png");
    assert_eq!(next_export_index(&vec![]), 0);
    assert_eq!(next_export_index(&vec![1, 2]), 0);
    assert_eq!(next_export_index(&vec![0, 2]), 1);
    assert_eq!(next_export_index(&vec![2, 0]), 1);
    assert_eq!(export_file_name(0), "warp_0.png");
    assert_eq!(export_file_name(17), "warp_17.png");
}

#[test]
fn export_width_below_the_inch_limit_is_scaled_at_print_dpi() {
    let (w, h) = export_dimensions("2", "3", 1200, 1000);
    assert_eq!((w, h), (600, 900));
}

#[test]
fn export_width_at_or_above_the_inch_limit_is_taken_as_pixels() {
    let (w, h) = export_dimensions("800", "600", 1200, 1000);
    assert_eq!((w, h), (800, 600));
    let (w, _) = export_dimensions("256", "600", 1200, 1000);
    assert_eq!(w, 256);
    let (w, _) = export_dimensions("255.9", "600", 1200, 1000);
    assert_eq!(w, 76770);
}

#[test]
fn export_height_is_derived_from_the_aspect_ratio_when_unparsable() {
    let (w, h) = export_dimensions("2", "inches / pixels", 1200, 1000);
    assert_eq!((w, h), (600, 500));
    let (w, h) = export_dimensions("900", "", 1200, 800);
    assert_eq!((w, h), (900, 600));
}

#[test]
fn export_width_is_derived_from_the_aspect_ratio_when_unparsable() {
    let (w, h) = export_dimensions("inches / pixels", "600", 1200, 1000);
    assert_eq!((w, h), (720, 600));
    let (w, h) = export_dimensions("", "2", 1200, 800);
    assert_eq!((w, h), (900, 600));
}

#[test]
fn export_keeps_the_source_extent_when_neither_box_parses() {
    let (w, h) = export_dimensions("inches / pixels", "inches / pixels", 1200, 1000);
    assert_eq!((w, h), (1200, 1000));
    let (w, h) = export_dimensions("", "", 640, 480);
    assert_eq!((w, h), (640, 480));
}

#[test]
fn export_negative_and_huge_sizes_saturate() {
    let (w, _) = export_dimensions("-5", "600", 1200, 1000);
    assert_eq!(w, 0);
    let (w, _) = export_dimensions("99999999999", "600", 1200, 1000);
    assert_eq!(w, u32::MAX);
}
