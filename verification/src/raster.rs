use vstd::prelude::*;
use vstd::arithmetic::div_mod::lemma_fundamental_div_mod_converse;

use crate::error::RenderError;
use crate::geometry;
use crate::geometry::{canvas_side, MAX_CANVAS_SIDE};
use crate::matrix::ModuleMatrix;

verus! {

/// Luminance of a pixel over a dark module.
pub const DARK_LUMA: u8 = 0;

/// Luminance of a pixel over a light module or the quiet zone.
pub const LIGHT_LUMA: u8 = 255;

/// Alpha of every pixel: the output is fully opaque.
pub const ALPHA_OPAQUE: u8 = 255;

/// A two-channel pixel buffer, row-major, two bytes per pixel: luminance
/// first, alpha second.
#[derive(Debug)]
pub struct RasterImage {
    pub width: u32,
    pub height: u32,
    pub data: Vec<u8>,
}

/// Luminance of the pixel at `(px, py)`: dark exactly when the pixel falls in
/// the region of a dark module, light over light modules and the quiet zone.
pub open spec fn pixel_luma(m: ModuleMatrix, quiet_zone: int, scale: int, px: int, py: int) -> u8
    recommends
        scale > 0,
{
    let mx = px / scale - quiet_zone;
    let my = py / scale - quiet_zone;
    if 0 <= mx < m.spec_size() && 0 <= my < m.spec_size() && m.at(mx, my) {
        DARK_LUMA
    } else {
        LIGHT_LUMA
    }
}

/// `img` is the raster rendering of `m` with the given quiet zone and scale:
/// a square canvas of `canvas_side` pixels, every pixel opaque, every
/// luminance given by `pixel_luma`.
pub open spec fn raster_correct(
    m: ModuleMatrix,
    quiet_zone: int,
    scale: int,
    img: RasterImage,
) -> bool {
    let side = canvas_side(m.spec_size(), quiet_zone, scale);
    &&& img.width == side
    &&& img.height == side
    &&& img.data@.len() == 2 * side * side
    &&& forall|i: int|
        0 <= i < side * side ==> #[trigger] img.data@[2 * i] == pixel_luma(
            m,
            quiet_zone,
            scale,
            i % side,
            i / side,
        ) && img.data@[2 * i + 1] == ALPHA_OPAQUE
}

/// Renders `m` as a fresh two-channel pixel buffer of `scale` pixels per
/// module edge. Fails with `InvalidGeometry` exactly on a non-positive scale,
/// a negative quiet zone or an empty matrix, and with `CapacityExceeded`
/// exactly when the canvas side passes `MAX_CANVAS_SIDE`.
pub fn make_image(m: &ModuleMatrix, scale: i32, quiet_zone: i32) -> (r: Result<
    RasterImage,
    RenderError,
>)
    requires
        m.inv(),
    ensures
        m.spec_size() == 0 || quiet_zone < 0 || scale <= 0 ==> r == Err::<RasterImage, _>(
            RenderError::InvalidGeometry,
        ),
        m.spec_size() > 0 && quiet_zone >= 0 && scale > 0 ==> {
            let side = canvas_side(m.spec_size(), quiet_zone as int, scale as int);
            if side > MAX_CANVAS_SIDE {
                r == Err::<RasterImage, _>(
                    RenderError::CapacityExceeded { width: side as u128, height: side as u128 },
                )
            } else {
                r matches Ok(img) && raster_correct(*m, quiet_zone as int, scale as int, img)
            }
        },
{
    let g = match geometry::compute(m.size(), quiet_zone, scale) {
        Ok(g) => g,
        Err(e) => { return Err(e) },
    };
    let side: usize = g.canvas_width as usize;
    let z: u64 = g.quiet_zone;
    let s: u64 = g.unit;
    let size: u64 = m.size() as u64;
    let mut data: Vec<u8> = Vec::new();
    let mut py: usize = 0;
    proof {
        assert(2 * (side * side) <= 2 * (MAX_CANVAS_SIDE * MAX_CANVAS_SIDE)) by (nonlinear_arith)
            requires
                0 <= side <= MAX_CANVAS_SIDE,
        ;
        assert(size + 2 * z <= (size + 2 * z) * s) by (nonlinear_arith)
            requires
                s >= 1,
                size >= 0,
                z >= 0,
        ;
    }
    while py < side
        invariant
            m.inv(),
            quiet_zone >= 0,
            scale > 0,
            z == quiet_zone as int,
            s == scale as int,
            size == m.spec_size(),
            side == canvas_side(m.spec_size(), z as int, s as int),
            side <= MAX_CANVAS_SIDE,
            size + 2 * z <= MAX_CANVAS_SIDE,
            py <= side,
            data@.len() == 2 * (py * side),
            forall|i: int|
                0 <= i < py * side ==> #[trigger] data@[2 * i] == pixel_luma(
                    *m,
                    z as int,
                    s as int,
                    i % (side as int),
                    i / (side as int),
                ) && data@[2 * i + 1] == ALPHA_OPAQUE,
        decreases side - py,
    {
        let mut px: usize = 0;
        proof {
            assert((py + 1) * side == py * side + side) by (nonlinear_arith);
            assert(py * side + side <= MAX_CANVAS_SIDE * MAX_CANVAS_SIDE) by (nonlinear_arith)
                requires
                    py < side <= MAX_CANVAS_SIDE,
            ;
        }
        while px < side
            invariant
                m.inv(),
                quiet_zone >= 0,
                scale > 0,
                z == quiet_zone as int,
                s == scale as int,
                size == m.spec_size(),
                side == canvas_side(m.spec_size(), z as int, s as int),
                side <= MAX_CANVAS_SIDE,
                size + 2 * z <= MAX_CANVAS_SIDE,
                py < side,
                px <= side,
                py * side + side <= MAX_CANVAS_SIDE * MAX_CANVAS_SIDE,
                data@.len() == 2 * (py * side + px),
                forall|i: int|
                    0 <= i < py * side + px ==> #[trigger] data@[2 * i] == pixel_luma(
                        *m,
                        z as int,
                        s as int,
                        i % (side as int),
                        i / (side as int),
                    ) && data@[2 * i + 1] == ALPHA_OPAQUE,
            decreases side - px,
        {
            let mxq: u64 = (px as u64) / s;
            let myq: u64 = (py as u64) / s;
            let dark = if mxq >= z && mxq < z + size && myq >= z && myq < z + size {
                m.get((mxq - z) as usize, (myq - z) as usize)
            } else {
                false
            };
            let luma = if dark {
                DARK_LUMA
            } else {
                LIGHT_LUMA
            };
            proof {
                lemma_fundamental_div_mod_converse(
                    py * side + px,
                    side as int,
                    py as int,
                    px as int,
                );
                assert(luma == pixel_luma(*m, z as int, s as int, px as int, py as int));
            }
            data.push(luma);
            data.push(ALPHA_OPAQUE);
            px = px + 1;
        }
        py = py + 1;
        proof {
            assert(py * side == (py - 1) * side + side) by (nonlinear_arith);
        }
    }
    proof {
        assert(2 * ((side as int) * (side as int)) == 2 * (side as int) * (side as int))
            by (nonlinear_arith);
    }
    Ok(RasterImage { width: side as u32, height: side as u32, data })
}

} // verus!
