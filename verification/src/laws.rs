use vstd::prelude::*;
use vstd::arithmetic::div_mod::lemma_fundamental_div_mod_converse;

use crate::geometry::{canvas_side, region_origin, total_modules};
use crate::matrix::ModuleMatrix;
use crate::raster::{pixel_luma, raster_correct, RasterImage, DARK_LUMA, LIGHT_LUMA};
use crate::svg::{spec_svg, spec_svg_path_from, spec_svg_segment};
use crate::text::{cell_char, text_lines_correct};

verus! {

/// Rendering to text is deterministic: any two line vectors that are text
/// renderings of the same matrix and quiet zone are character-identical.
pub proof fn lemma_text_render_deterministic(
    m: ModuleMatrix,
    quiet_zone: int,
    a: Seq<String>,
    b: Seq<String>,
)
    requires
        text_lines_correct(m, quiet_zone, a),
        text_lines_correct(m, quiet_zone, b),
    ensures
        a.len() == b.len(),
        forall|r: int| 0 <= r < a.len() ==> (#[trigger] a[r])@ == b[r]@,
{
    let total = total_modules(m.spec_size(), quiet_zone);
    assert forall|r: int| 0 <= r < a.len() implies (#[trigger] a[r])@ == b[r]@ by {
        assert forall|j: int| 0 <= j < 2 * total implies a[r]@[j] == b[r]@[j] by {
            let c = j / 2;
            assert(j == 2 * c || j == 2 * c + 1);
            assert(0 <= c < total);
            assert(a[r]@[2 * c] == cell_char(m, quiet_zone, r, c));
            assert(b[r]@[2 * c] == cell_char(m, quiet_zone, r, c));
            assert(a[r]@[2 * c + 1] == cell_char(m, quiet_zone, r, c));
            assert(b[r]@[2 * c + 1] == cell_char(m, quiet_zone, r, c));
        }
        assert(a[r]@ =~= b[r]@);
    }
}

/// Rendering to a pixel buffer is deterministic: any two raster images that
/// are renderings of the same matrix, quiet zone and scale are byte-identical.
pub proof fn lemma_raster_render_deterministic(
    m: ModuleMatrix,
    quiet_zone: int,
    scale: int,
    a: RasterImage,
    b: RasterImage,
)
    requires
        raster_correct(m, quiet_zone, scale, a),
        raster_correct(m, quiet_zone, scale, b),
    ensures
        a.width == b.width,
        a.height == b.height,
        a.data@ == b.data@,
{
    let side = canvas_side(m.spec_size(), quiet_zone, scale);
    assert(2 * side * side == 2 * (side * side)) by (nonlinear_arith);
    assert forall|k: int| 0 <= k < a.data@.len() implies a.data@[k] == b.data@[k] by {
        let i = k / 2;
        assert(k == 2 * i || k == 2 * i + 1);
        assert(0 <= i < side * side);
        assert(a.data@[2 * i] == pixel_luma(m, quiet_zone, scale, i % side, i / side));
        assert(b.data@[2 * i] == pixel_luma(m, quiet_zone, scale, i % side, i / side));
        assert(a.data@[2 * i + 1] == b.data@[2 * i + 1]);
    }
    assert(a.data@ =~= b.data@);
}

/// Rendering to SVG is deterministic: any two strings that are SVG renderings
/// of the same matrix and quiet zone are character-identical.
pub proof fn lemma_svg_render_deterministic(
    m: ModuleMatrix,
    quiet_zone: int,
    a: Seq<char>,
    b: Seq<char>,
)
    requires
        a == spec_svg(m, quiet_zone),
        b == spec_svg(m, quiet_zone),
    ensures
        a == b,
{
}

/// The raster and vector renderers agree on geometry: for a module `(x, y)`,
/// every pixel of the square of side `scale` at origin
/// `((quiet_zone + x) * scale, (quiet_zone + y) * scale)` — the raster image
/// of the unit square at `(quiet_zone + x, quiet_zone + y)` that the vector
/// renderer draws — is dark exactly when the module is dark.
pub proof fn lemma_geometry_agreement(
    m: ModuleMatrix,
    quiet_zone: int,
    scale: int,
    x: int,
    y: int,
    px: int,
    py: int,
)
    requires
        m.inv(),
        quiet_zone >= 0,
        scale > 0,
        0 <= x < m.spec_size(),
        0 <= y < m.spec_size(),
        region_origin(quiet_zone, x, scale) <= px < region_origin(quiet_zone, x, scale) + scale,
        region_origin(quiet_zone, y, scale) <= py < region_origin(quiet_zone, y, scale) + scale,
    ensures
        pixel_luma(m, quiet_zone, scale, px, py) == (if m.at(x, y) {
            DARK_LUMA
        } else {
            LIGHT_LUMA
        }),
{
    lemma_fundamental_div_mod_converse(px, scale, quiet_zone + x, px - (quiet_zone + x) * scale);
    lemma_fundamental_div_mod_converse(py, scale, quiet_zone + y, py - (quiet_zone + y) * scale);
}

/// Every dark pixel of the raster rendering lies in the region of a dark
/// module: the raster renderer paints nothing outside the regions the vector
/// renderer covers.
pub proof fn lemma_dark_pixel_has_module(
    m: ModuleMatrix,
    quiet_zone: int,
    scale: int,
    px: int,
    py: int,
)
    requires
        m.inv(),
        quiet_zone >= 0,
        scale > 0,
        px >= 0,
        py >= 0,
        pixel_luma(m, quiet_zone, scale, px, py) == DARK_LUMA,
    ensures
        exists|x: int, y: int|
            {
                &&& 0 <= x < m.spec_size()
                &&& 0 <= y < m.spec_size()
                &&& #[trigger] m.at(x, y)
                &&& region_origin(quiet_zone, x, scale) <= px < region_origin(quiet_zone, x, scale)
                    + scale
                &&& region_origin(quiet_zone, y, scale) <= py < region_origin(quiet_zone, y, scale)
                    + scale
            },
{
    let x = px / scale - quiet_zone;
    let y = py / scale - quiet_zone;
    vstd::arithmetic::div_mod::lemma_fundamental_div_mod(px, scale);
    vstd::arithmetic::div_mod::lemma_fundamental_div_mod(py, scale);
    assert(region_origin(quiet_zone, x, scale) == (px / scale) * scale);
    assert(region_origin(quiet_zone, y, scale) == (py / scale) * scale);
    assert(m.at(x, y) && region_origin(quiet_zone, x, scale) <= px < region_origin(
        quiet_zone,
        x,
        scale,
    ) + scale && region_origin(quiet_zone, y, scale) <= py < region_origin(quiet_zone, y, scale)
        + scale);
}

proof fn lemma_svg_path_reaches(m: ModuleMatrix, quiet_zone: int, y0: int, x0: int, x: int, y: int)
    requires
        m.inv(),
        quiet_zone >= 0,
        0 <= x < m.spec_size(),
        0 <= y < m.spec_size(),
        0 <= x0 <= m.spec_size(),
        0 <= y0 <= y,
        y0 < y || x0 <= x,
        m.at(x, y),
    ensures
        exists|pre: Seq<char>, post: Seq<char>|
            spec_svg_path_from(m, quiet_zone, y0, x0) == #[trigger] (pre + spec_svg_segment(
                (quiet_zone + x) as nat,
                (quiet_zone + y) as nat,
            ) + post),
    decreases m.spec_size() - y0, m.spec_size() - x0,
{
    let seg = spec_svg_segment((quiet_zone + x) as nat, (quiet_zone + y) as nat);
    if x0 >= m.spec_size() {
        lemma_svg_path_reaches(m, quiet_zone, y0 + 1, 0, x, y);
        let (pre, post) = choose|pre: Seq<char>, post: Seq<char>|
            spec_svg_path_from(m, quiet_zone, y0 + 1, 0) == #[trigger] (pre + seg + post);
        assert(spec_svg_path_from(m, quiet_zone, y0, x0) == pre + seg + post);
    } else if y0 == y && x0 == x {
        let rest = spec_svg_path_from(m, quiet_zone, y0, x0 + 1);
        assert(spec_svg_path_from(m, quiet_zone, y0, x0) =~= Seq::<char>::empty() + seg + rest);
    } else {
        let cell = if m.at(x0, y0) {
            spec_svg_segment((quiet_zone + x0) as nat, (quiet_zone + y0) as nat)
        } else {
            Seq::<char>::empty()
        };
        lemma_svg_path_reaches(m, quiet_zone, y0, x0 + 1, x, y);
        let (pre, post) = choose|pre: Seq<char>, post: Seq<char>|
            spec_svg_path_from(m, quiet_zone, y0, x0 + 1) == #[trigger] (pre + seg + post);
        assert(spec_svg_path_from(m, quiet_zone, y0, x0) =~= (cell + pre) + seg + post);
    }
}

/// The vector rendering covers every dark module: the path data of the SVG
/// document holds the unit-square command at viewport coordinate
/// `(quiet_zone + x, quiet_zone + y)` for each dark module `(x, y)`.
pub proof fn lemma_svg_covers_dark_module(m: ModuleMatrix, quiet_zone: int, x: int, y: int)
    requires
        m.inv(),
        quiet_zone >= 0,
        0 <= x < m.spec_size(),
        0 <= y < m.spec_size(),
        m.at(x, y),
    ensures
        exists|pre: Seq<char>, post: Seq<char>|
            spec_svg_path_from(m, quiet_zone, 0, 0) == #[trigger] (pre + spec_svg_segment(
                (quiet_zone + x) as nat,
                (quiet_zone + y) as nat,
            ) + post),
{
    lemma_svg_path_reaches(m, quiet_zone, 0, 0, x, y);
}

/// The text renderer agrees with the others on geometry: the cell at row
/// `quiet_zone + y`, column `quiet_zone + x` of the bordered grid shows
/// exactly the module `(x, y)`.
pub proof fn lemma_text_cell_agreement(m: ModuleMatrix, quiet_zone: int, x: int, y: int)
    requires
        0 <= x < m.spec_size(),
        0 <= y < m.spec_size(),
    ensures
        cell_char(m, quiet_zone, quiet_zone + y, quiet_zone + x) == (if m.at(x, y) {
            '█'
        } else {
            ' '
        }),
{
}

/// A zero quiet zone is border-less: the output side equals the matrix side
/// in every backend's units, and each text cell shows the module at its own
/// coordinates.
pub proof fn lemma_zero_quiet_zone(m: ModuleMatrix, scale: int)
    ensures
        total_modules(m.spec_size(), 0) == m.spec_size(),
        canvas_side(m.spec_size(), 0, scale) == m.spec_size() * scale,
        forall|r: int, c: int|
            0 <= r < m.spec_size() && 0 <= c < m.spec_size() ==> #[trigger] cell_char(m, 0, r, c)
                == (if m.at(c, r) {
                '█'
            } else {
                ' '
            }),
{
}

/// Scale one is one pixel per module: the pixel at `(px, py)` shows exactly
/// the module at `(px - quiet_zone, py - quiet_zone)`.
pub proof fn lemma_unit_scale(m: ModuleMatrix, quiet_zone: int, px: int, py: int)
    requires
        px >= 0,
        py >= 0,
    ensures
        pixel_luma(m, quiet_zone, 1, px, py) == (if 0 <= px - quiet_zone < m.spec_size() && 0 <= py
            - quiet_zone < m.spec_size() && m.at(px - quiet_zone, py - quiet_zone) {
            DARK_LUMA
        } else {
            LIGHT_LUMA
        }),
{
    assert(px / 1 == px && py / 1 == py);
}

} // verus!
