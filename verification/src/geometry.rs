use vstd::prelude::*;

use crate::error::RenderError;

verus! {

/// Upper bound on a raster canvas side, in pixels. With two bytes per pixel a
/// canvas of this side needs a 2 GiB buffer, the safe allocation bound.
pub const MAX_CANVAS_SIDE: u64 = 32768;

/// Side of the output in module units: the matrix plus the quiet zone on both
/// sides.
pub open spec fn total_modules(size: int, quiet_zone: int) -> int {
    size + 2 * quiet_zone
}

/// Side of the raster canvas in pixels: every module unit is `scale` pixels.
pub open spec fn canvas_side(size: int, quiet_zone: int, scale: int) -> int {
    total_modules(size, quiet_zone) * scale
}

/// Origin of module coordinate `coord` on one axis, in units of `unit`
/// (pixels for the raster backend, module units for the vector backend).
pub open spec fn region_origin(quiet_zone: int, coord: int, unit: int) -> int {
    (quiet_zone + coord) * unit
}

/// An axis-aligned square region of the canvas covered by one module.
#[derive(Debug, Clone, Copy, PartialEq, Eq, Structural)]
pub struct Rect {
    pub x: u64,
    pub y: u64,
    pub w: u64,
    pub h: u64,
}

/// Sizing shared by the renderers, derived from matrix size, quiet zone and
/// scale. `unit` is the side of one module region on the canvas.
#[derive(Debug, Clone, Copy, PartialEq, Eq, Structural)]
pub struct Geometry {
    pub canvas_width: u64,
    pub canvas_height: u64,
    pub quiet_zone: u64,
    pub unit: u64,
}

impl Geometry {
    /// The canvas covers the matrix and the quiet zone at the given unit, and
    /// fits the safe allocation bound.
    pub open spec fn consistent(&self, size: int, quiet_zone: int, scale: int) -> bool {
        &&& self.canvas_width == canvas_side(size, quiet_zone, scale)
        &&& self.canvas_height == canvas_side(size, quiet_zone, scale)
        &&& self.quiet_zone == quiet_zone
        &&& self.unit == scale
        &&& self.canvas_width <= MAX_CANVAS_SIDE
    }

    /// The square canvas region covered by the module at `(x, y)`.
    pub fn module_to_region(&self, x: u64, y: u64) -> (r: Rect)
        requires
            self.unit >= 1,
            (self.quiet_zone + x + 1) * self.unit <= u64::MAX,
            (self.quiet_zone + y + 1) * self.unit <= u64::MAX,
        ensures
            r.x == region_origin(self.quiet_zone as int, x as int, self.unit as int),
            r.y == region_origin(self.quiet_zone as int, y as int, self.unit as int),
            r.w == self.unit,
            r.h == self.unit,
    {
        proof {
            assert((self.quiet_zone + x) * self.unit <= (self.quiet_zone + x + 1) * self.unit
                && (self.quiet_zone + y) * self.unit <= (self.quiet_zone + y + 1) * self.unit
                && self.quiet_zone + x <= (self.quiet_zone + x + 1) * self.unit
                && self.quiet_zone + y <= (self.quiet_zone + y + 1) * self.unit)
                by (nonlinear_arith)
                requires
                    self.unit >= 1,
            ;
        }
        Rect {
            x: (self.quiet_zone + x) * self.unit,
            y: (self.quiet_zone + y) * self.unit,
            w: self.unit,
            h: self.unit,
        }
    }
}

/// Computes the shared output sizing. Fails with `InvalidGeometry` exactly on
/// an empty matrix, a non-positive scale or a negative quiet zone, and with
/// `CapacityExceeded` exactly when the canvas side passes `MAX_CANVAS_SIDE`.
pub fn compute(size: usize, quiet_zone: i32, scale: i32) -> (r: Result<Geometry, RenderError>)
    ensures
        size == 0 || quiet_zone < 0 || scale <= 0 ==> r == Err::<Geometry, _>(
            RenderError::InvalidGeometry,
        ),
        size > 0 && quiet_zone >= 0 && scale > 0 ==> {
            let side = canvas_side(size as int, quiet_zone as int, scale as int);
            if side > MAX_CANVAS_SIDE {
                r == Err::<Geometry, _>(
                    RenderError::CapacityExceeded { width: side as u128, height: side as u128 },
                )
            } else {
                r matches Ok(g) && g.consistent(size as int, quiet_zone as int, scale as int)
            }
        },
{
    if size == 0 || quiet_zone < 0 || scale <= 0 {
        return Err(RenderError::InvalidGeometry);
    }
    let total: u128 = size as u128 + 2 * (quiet_zone as u128);
    proof {
        assert(total * (scale as u128) <= (u64::MAX as u128 * 2 + 2) * (u32::MAX as u128))
            by (nonlinear_arith)
            requires
                0 < total <= u64::MAX as u128 * 2 + 2,
                0 < scale as u128 <= u32::MAX as u128,
        ;
    }
    let side: u128 = total * (scale as u128);
    if side > MAX_CANVAS_SIDE as u128 {
        return Err(RenderError::CapacityExceeded { width: side, height: side });
    }
    Ok(
        Geometry {
            canvas_width: side as u64,
            canvas_height: side as u64,
            quiet_zone: quiet_zone as u64,
            unit: scale as u64,
        },
    )
}

} // verus!
