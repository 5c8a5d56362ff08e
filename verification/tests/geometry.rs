use qrlink::geometry::{compute, Geometry, MAX_CANVAS_SIDE};
use qrlink::{console_qr, make_image, make_svg, ModuleMatrix, RenderError};

#[test]
fn compute_gives_square_canvas_and_regions() {
    let g: Geometry = compute(21, 2, 10).unwrap();
    assert_eq!(g.canvas_width, (21 + 2 * 2) * 10);
    assert_eq!(g.canvas_height, (21 + 2 * 2) * 10);
    assert_eq!(g.unit, 10);
    let r = g.module_to_region(0, 0);
    assert_eq!((r.x, r.y, r.w, r.h), (20, 20, 10, 10));
    let r = g.module_to_region(3, 7);
    assert_eq!((r.x, r.y, r.w, r.h), ((2 + 3) * 10, (2 + 7) * 10, 10, 10));
}

#[test]
fn compute_rejects_bad_geometry() {
    assert_eq!(compute(0, 2, 10).unwrap_err(), RenderError::InvalidGeometry);
    assert_eq!(compute(21, -1, 10).unwrap_err(), RenderError::InvalidGeometry);
    assert_eq!(compute(21, 2, 0).unwrap_err(), RenderError::InvalidGeometry);
    assert_eq!(compute(21, 2, -5).unwrap_err(), RenderError::InvalidGeometry);
}

#[test]
fn compute_rejects_oversized_canvas() {
    let side = (100u128 + 2 * 2) * 1000;
    assert!(side > MAX_CANVAS_SIDE as u128);
    assert_eq!(
        compute(100, 2, 1000).unwrap_err(),
        RenderError::CapacityExceeded { width: side, height: side }
    );
}

#[test]
fn empty_matrix_renders_border_lines_only() {
    let m = ModuleMatrix::from_cells(0, vec![]).unwrap();
    let lines = console_qr(&m, 2).unwrap();
    assert_eq!(lines.len(), 4);
    for line in &lines {
        assert_eq!(line, "        ");
    }
    // the raster backend refuses an empty matrix
    assert_eq!(make_image(&m, 1, 2).unwrap_err(), RenderError::InvalidGeometry);
    // the vector backend draws an empty path over the quiet zone
    let svg = make_svg(&m, 2).unwrap();
    assert!(svg.contains("viewBox=\"0 0 4 4\""));
    assert!(svg.contains("<path d=\"\""));
}
