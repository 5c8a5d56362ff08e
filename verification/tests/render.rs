use qrlink::{check_image_format, console_qr, make_image, make_svg, ModuleMatrix, RenderError};

fn diagonal_matrix() -> ModuleMatrix {
    // 2x2 grid with the main diagonal dark
    ModuleMatrix::from_cells(2, vec![true, false, false, true]).unwrap()
}

#[test]
fn from_cells_rejects_wrong_length() {
    assert!(ModuleMatrix::from_cells(2, vec![true, false, false]).is_none());
    assert!(ModuleMatrix::from_cells(2, vec![true, false, false, true]).is_some());
}

#[test]
fn text_line_counts_match_geometry() {
    let m = diagonal_matrix();
    let lines = console_qr(&m, 3).unwrap();
    assert_eq!(lines.len(), 2 + 2 * 3);
    for line in &lines {
        assert_eq!(line.chars().count(), 2 * (2 + 2 * 3));
    }
}

#[test]
fn text_cells_show_modules() {
    let m = diagonal_matrix();
    let lines = console_qr(&m, 1).unwrap();
    assert_eq!(lines.len(), 4);
    assert_eq!(lines[0], "        ");
    assert_eq!(lines[1], "  ██    ");
    assert_eq!(lines[2], "    ██  ");
    assert_eq!(lines[3], "        ");
}

#[test]
fn text_zero_quiet_zone_is_borderless() {
    let m = diagonal_matrix();
    let lines = console_qr(&m, 0).unwrap();
    assert_eq!(lines.len(), 2);
    assert_eq!(lines[0], "██  ");
    assert_eq!(lines[1], "  ██");
}

#[test]
fn text_rejects_negative_quiet_zone() {
    let m = diagonal_matrix();
    assert_eq!(console_qr(&m, -1).unwrap_err(), RenderError::InvalidGeometry);
}

#[test]
fn text_render_is_idempotent() {
    let m = diagonal_matrix();
    assert_eq!(console_qr(&m, 2).unwrap(), console_qr(&m, 2).unwrap());
}

#[test]
fn raster_dimensions_match_geometry() {
    let m = diagonal_matrix();
    let img = make_image(&m, 5, 3).unwrap();
    assert_eq!(img.width, (2 + 2 * 3) * 5);
    assert_eq!(img.height, (2 + 2 * 3) * 5);
    assert_eq!(img.data.len(), (8 * 5) * (8 * 5) * 2);
}

#[test]
fn raster_unit_scale_is_one_pixel_per_module() {
    let m = diagonal_matrix();
    let img = make_image(&m, 1, 0).unwrap();
    assert_eq!(img.width, 2);
    assert_eq!(img.height, 2);
    // row-major (luminance, alpha) pairs: dark, light / light, dark
    assert_eq!(img.data, vec![0, 255, 255, 255, 255, 255, 0, 255]);
}

#[test]
fn raster_regions_agree_with_module_grid() {
    let m = diagonal_matrix();
    let z = 1u32;
    let s = 2u32;
    let img = make_image(&m, s as i32, z as i32).unwrap();
    let side = (2 + 2 * z) * s;
    for py in 0..side {
        for px in 0..side {
            let luma = img.data[(2 * (py * side + px)) as usize];
            let alpha = img.data[(2 * (py * side + px) + 1) as usize];
            let mx = (px / s) as i64 - z as i64;
            let my = (py / s) as i64 - z as i64;
            let dark = mx >= 0 && mx < 2 && my >= 0 && my < 2 && (mx == my);
            assert_eq!(luma, if dark { 0 } else { 255 });
            assert_eq!(alpha, 255);
        }
    }
}

#[test]
fn raster_render_is_idempotent() {
    let m = diagonal_matrix();
    let a = make_image(&m, 3, 2).unwrap();
    let b = make_image(&m, 3, 2).unwrap();
    assert_eq!(a.width, b.width);
    assert_eq!(a.height, b.height);
    assert_eq!(a.data, b.data);
}

#[test]
fn raster_rejects_zero_scale() {
    let m = diagonal_matrix();
    assert_eq!(make_image(&m, 0, 2).unwrap_err(), RenderError::InvalidGeometry);
}

#[test]
fn raster_rejects_negative_quiet_zone() {
    let m = diagonal_matrix();
    assert_eq!(make_image(&m, 1, -3).unwrap_err(), RenderError::InvalidGeometry);
}

#[test]
fn raster_rejects_oversized_canvas() {
    let m = ModuleMatrix::from_cells(1, vec![true]).unwrap();
    assert_eq!(
        make_image(&m, 40000, 0).unwrap_err(),
        RenderError::CapacityExceeded { width: 40000, height: 40000 }
    );
}

#[test]
fn svg_exact_document_for_single_module() {
    let m = ModuleMatrix::from_cells(1, vec![true]).unwrap();
    let svg = make_svg(&m, 0).unwrap();
    assert_eq!(
        svg,
        "<?xml version=\"1.0\" encoding=\"UTF-8\"?>\n\
         <svg xmlns=\"http://www.w3.org/2000/svg\" version=\"1.1\" viewBox=\"0 0 1 1\" stroke=\"none\">\n\
         <rect width=\"100%\" height=\"100%\" fill=\"#FFFFFF\"/>\n\
         <path d=\"M0,0h1v1h-1z \" fill=\"#000000\"/>\n\
         </svg>\n"
    );
}

#[test]
fn svg_path_places_modules_after_quiet_zone() {
    let m = diagonal_matrix();
    let svg = make_svg(&m, 2).unwrap();
    assert!(svg.contains("viewBox=\"0 0 6 6\""));
    assert!(svg.contains("M2,2h1v1h-1z"));
    assert!(svg.contains("M3,3h1v1h-1z"));
    assert!(!svg.contains("M2,3h1v1h-1z"));
    assert!(!svg.contains("M3,2h1v1h-1z"));
}

#[test]
fn svg_viewbox_renders_multi_digit_dimensions() {
    let m = diagonal_matrix();
    let svg = make_svg(&m, 4).unwrap();
    assert!(svg.contains("viewBox=\"0 0 10 10\""));
    assert!(svg.contains("M4,4h1v1h-1z"));
    assert!(svg.contains("M5,5h1v1h-1z"));
}

#[test]
fn svg_render_is_idempotent() {
    let m = diagonal_matrix();
    assert_eq!(make_svg(&m, 4).unwrap(), make_svg(&m, 4).unwrap());
}

#[test]
fn svg_rejects_negative_quiet_zone() {
    let m = diagonal_matrix();
    assert_eq!(make_svg(&m, -2).unwrap_err(), RenderError::InvalidGeometry);
}

#[test]
fn image_format_accepts_raster_extensions() {
    assert_eq!(check_image_format("qr.png"), Ok(()));
    assert_eq!(check_image_format("qr.jpg"), Ok(()));
    assert_eq!(check_image_format("qr.jpeg"), Ok(()));
    assert_eq!(check_image_format("dir.name.png"), Ok(()));
    assert_eq!(check_image_format("out/dir/qr.png"), Ok(()));
}

#[test]
fn image_format_rejects_other_names() {
    assert_eq!(check_image_format("out.gif"), Err(RenderError::UnsupportedFormat));
    assert_eq!(check_image_format("qr.PNG"), Err(RenderError::UnsupportedFormat));
    assert_eq!(check_image_format("qr"), Err(RenderError::UnsupportedFormat));
    assert_eq!(check_image_format(".png"), Err(RenderError::UnsupportedFormat));
    assert_eq!(check_image_format("dir/.png"), Err(RenderError::UnsupportedFormat));
    assert_eq!(check_image_format(""), Err(RenderError::UnsupportedFormat));
}
