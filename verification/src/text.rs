use vstd::prelude::*;
use vstd::string::StringExecFns;

use crate::error::RenderError;
use crate::geometry::total_modules;
use crate::matrix::ModuleMatrix;

verus! {

/// The character filling both halves of the text cell at row `row`, column
/// `col` of the bordered grid: a solid block over a dark module, a space over
/// a light module and over the quiet zone.
pub open spec fn cell_char(m: ModuleMatrix, quiet_zone: int, row: int, col: int) -> char {
    let mx = col - quiet_zone;
    let my = row - quiet_zone;
    if 0 <= mx < m.spec_size() && 0 <= my < m.spec_size() && m.at(mx, my) {
        '█'
    } else {
        ' '
    }
}

/// The text rendering of `m` with quiet zone `quiet_zone`: one line per
/// bordered row, one two-character cell per bordered column, each cell two
/// copies of `cell_char`.
pub open spec fn text_lines_correct(m: ModuleMatrix, quiet_zone: int, lines: Seq<String>) -> bool {
    let total = total_modules(m.spec_size(), quiet_zone);
    &&& lines.len() == total
    &&& forall|r: int| 0 <= r < total ==> (#[trigger] lines[r])@.len() == 2 * total
    &&& forall|r: int, c: int|
        0 <= r < total && 0 <= c < total ==> #[trigger] lines[r]@[2 * c] == cell_char(
            m,
            quiet_zone,
            r,
            c,
        ) && lines[r]@[2 * c + 1] == cell_char(m, quiet_zone, r, c)
}

/// Renders `m` as lines of double-character cells for a monospace console:
/// two block glyphs per dark module, two spaces per light module and per
/// quiet-zone cell. Fails with `InvalidGeometry` exactly on a negative quiet
/// zone; an empty matrix yields just the border lines.
pub fn console_qr(m: &ModuleMatrix, quiet_zone: i32) -> (r: Result<Vec<String>, RenderError>)
    requires
        m.inv(),
        total_modules(m.spec_size(), quiet_zone as int) <= usize::MAX,
    ensures
        quiet_zone < 0 <==> r == Err::<Vec<String>, _>(RenderError::InvalidGeometry),
        quiet_zone >= 0 <==> r is Ok,
        r matches Ok(lines) ==> text_lines_correct(*m, quiet_zone as int, lines@),
{
    if quiet_zone < 0 {
        return Err(RenderError::InvalidGeometry);
    }
    proof {
        reveal_strlit("██");
        reveal_strlit("  ");
    }
    let z: usize = quiet_zone as usize;
    let size: usize = m.size();
    let total: usize = size + 2 * z;
    let mut lines: Vec<String> = Vec::new();
    let mut row: usize = 0;
    while row < total
        invariant
            m.inv(),
            z == quiet_zone as int,
            quiet_zone >= 0,
            size == m.spec_size(),
            total == total_modules(m.spec_size(), z as int),
            row <= total,
            lines@.len() == row,
            forall|r: int| 0 <= r < row ==> (#[trigger] lines@[r])@.len() == 2 * total,
            forall|r: int, c: int|
                0 <= r < row && 0 <= c < total ==> #[trigger] lines@[r]@[2 * c] == cell_char(
                    *m,
                    z as int,
                    r,
                    c,
                ) && lines@[r]@[2 * c + 1] == cell_char(*m, z as int, r, c),
            "██"@ =~= seq!['█', '█'],
            "  "@ =~= seq![' ', ' '],
        decreases total - row,
    {
        let mut line = String::new();
        let mut col: usize = 0;
        while col < total
            invariant
                m.inv(),
                z == quiet_zone as int,
                quiet_zone >= 0,
                size == m.spec_size(),
                total == total_modules(m.spec_size(), z as int),
                row < total,
                col <= total,
                line@.len() == 2 * col,
                forall|c: int|
                    0 <= c < col ==> #[trigger] line@[2 * c] == cell_char(*m, z as int, row as int, c)
                        && line@[2 * c + 1] == cell_char(*m, z as int, row as int, c),
                "██"@ =~= seq!['█', '█'],
                "  "@ =~= seq![' ', ' '],
            decreases total - col,
        {
            let dark = if col >= z && col < z + size && row >= z && row < z + size {
                m.get(col - z, row - z)
            } else {
                false
            };
            if dark {
                line.append("██");
            } else {
                line.append("  ");
            }
            col = col + 1;
        }
        lines.push(line);
        row = row + 1;
    }
    Ok(lines)
}

} // verus!
