use vstd::prelude::*;
use vstd::string::StringExecFns;

use crate::error::RenderError;
use crate::geometry::total_modules;
use crate::matrix::ModuleMatrix;

verus! {

/// Decimal digit `d` as a one-character sequence.
pub open spec fn spec_digit(d: nat) -> Seq<char>
    recommends
        d < 10,
{
    if d == 0 {
        "0"@
    } else if d == 1 {
        "1"@
    } else if d == 2 {
        "2"@
    } else if d == 3 {
        "3"@
    } else if d == 4 {
        "4"@
    } else if d == 5 {
        "5"@
    } else if d == 6 {
        "6"@
    } else if d == 7 {
        "7"@
    } else if d == 8 {
        "8"@
    } else {
        "9"@
    }
}

/// The decimal representation of `n`, most significant digit first, without
/// leading zeros (a lone zero for `n == 0`).
pub open spec fn spec_decimal(n: nat) -> Seq<char>
    decreases n,
{
    if n < 10 {
        spec_digit(n)
    } else {
        spec_decimal(n / 10) + spec_digit(n % 10)
    }
}

fn digit_str(d: u64) -> (r: &'static str)
    requires
        d < 10,
    ensures
        r@ == spec_digit(d as nat),
{
    match d {
        0 => "0",
        1 => "1",
        2 => "2",
        3 => "3",
        4 => "4",
        5 => "5",
        6 => "6",
        7 => "7",
        8 => "8",
        _ => "9",
    }
}

fn decimal_string(n: u64) -> (r: String)
    ensures
        r@ == spec_decimal(n as nat),
    decreases n,
{
    if n < 10 {
        digit_str(n).to_owned()
    } else {
        let mut s = decimal_string(n / 10);
        s.append(digit_str(n % 10));
        s
    }
}

/// The path command drawing the unit square whose top-left corner is at
/// viewport coordinate `(px, py)`, with a trailing separator.
pub open spec fn spec_svg_segment(px: nat, py: nat) -> Seq<char> {
    "M"@ + spec_decimal(px) + ","@ + spec_decimal(py) + "h1v1h-1z "@
}

/// The path data for the dark modules of `m` from position `(x, y)` onwards
/// in row-major order (increasing `y`, then increasing `x`), each dark module
/// shifted by the quiet zone.
pub open spec fn spec_svg_path_from(m: ModuleMatrix, quiet_zone: int, y: int, x: int) -> Seq<char>
    decreases m.spec_size() - y, m.spec_size() - x,
{
    if y < 0 || x < 0 || y >= m.spec_size() {
        Seq::empty()
    } else if x >= m.spec_size() {
        spec_svg_path_from(m, quiet_zone, y + 1, 0)
    } else {
        (if m.at(x, y) {
            spec_svg_segment((x + quiet_zone) as nat, (y + quiet_zone) as nat)
        } else {
            Seq::empty()
        }) + spec_svg_path_from(m, quiet_zone, y, x + 1)
    }
}

/// Everything of the SVG document before the path data: XML prologue, the
/// `viewBox` covering the matrix plus the quiet zone, the light background
/// rectangle, and the opening of the dark path element.
pub open spec fn spec_svg_head(m: ModuleMatrix, quiet_zone: int) -> Seq<char> {
    let total = total_modules(m.spec_size(), quiet_zone) as nat;
    "<?xml version=\"1.0\" encoding=\"UTF-8\"?>\n<svg xmlns=\"http://www.w3.org/2000/svg\" version=\"1.1\" viewBox=\"0 0 "@
        + spec_decimal(total) + " "@ + spec_decimal(total)
        + "\" stroke=\"none\">\n<rect width=\"100%\" height=\"100%\" fill=\"#FFFFFF\"/>\n<path d=\""@
}

/// Everything of the SVG document after the path data.
pub open spec fn spec_svg_tail() -> Seq<char> {
    "\" fill=\"#000000\"/>\n</svg>\n"@
}

/// The whole SVG document for `m` with the given quiet zone.
pub open spec fn spec_svg(m: ModuleMatrix, quiet_zone: int) -> Seq<char> {
    spec_svg_head(m, quiet_zone) + spec_svg_path_from(m, quiet_zone, 0, 0) + spec_svg_tail()
}

/// Renders `m` as an SVG document string: a `viewBox` of the matrix plus the
/// quiet zone on each axis, a light background rectangle, and one compound
/// path covering the dark modules in row-major order, so that repeated calls
/// on identical input give byte-identical output. Fails with
/// `InvalidGeometry` exactly on a negative quiet zone.
pub fn make_svg(m: &ModuleMatrix, quiet_zone: i32) -> (r: Result<String, RenderError>)
    requires
        m.inv(),
    ensures
        quiet_zone < 0 <==> r == Err::<String, _>(RenderError::InvalidGeometry),
        quiet_zone >= 0 <==> r is Ok,
        r matches Ok(s) ==> s@ == spec_svg(*m, quiet_zone as int),
{
    if quiet_zone < 0 {
        return Err(RenderError::InvalidGeometry);
    }
    let size: usize = m.size();
    proof {
        m.lemma_size_bound();
    }
    let z: u64 = quiet_zone as u64;
    let total: u64 = (size as u64) + 2 * z;
    let dim = decimal_string(total);
    let mut out: String =
        "<?xml version=\"1.0\" encoding=\"UTF-8\"?>\n<svg xmlns=\"http://www.w3.org/2000/svg\" version=\"1.1\" viewBox=\"0 0 ".to_owned();
    out.append(dim.as_str());
    out.append(" ");
    out.append(dim.as_str());
    out.append(
        "\" stroke=\"none\">\n<rect width=\"100%\" height=\"100%\" fill=\"#FFFFFF\"/>\n<path d=\"",
    );
    proof {
        assert(out@ =~= spec_svg_head(*m, quiet_zone as int));
        assert(out@ + spec_svg_path_from(*m, quiet_zone as int, 0, 0) =~= spec_svg_head(
            *m,
            quiet_zone as int,
        ) + spec_svg_path_from(*m, quiet_zone as int, 0, 0));
    }
    let mut y: usize = 0;
    while y < size
        invariant
            m.inv(),
            quiet_zone >= 0,
            z == quiet_zone as int,
            size == m.spec_size(),
            size <= 0x1_0000_0000u64,
            y <= size,
            out@ + spec_svg_path_from(*m, z as int, y as int, 0) == spec_svg_head(*m, z as int)
                + spec_svg_path_from(*m, z as int, 0, 0),
        decreases size - y,
    {
        let mut x: usize = 0;
        while x < size
            invariant
                m.inv(),
                quiet_zone >= 0,
                z == quiet_zone as int,
                size == m.spec_size(),
                size <= 0x1_0000_0000u64,
                y < size,
                x <= size,
                out@ + spec_svg_path_from(*m, z as int, y as int, x as int) == spec_svg_head(
                    *m,
                    z as int,
                ) + spec_svg_path_from(*m, z as int, 0, 0),
            decreases size - x,
        {
            let ghost prev = out@;
            if m.get(x, y) {
                out.append("M");
                out.append(decimal_string((x as u64) + z).as_str());
                out.append(",");
                out.append(decimal_string((y as u64) + z).as_str());
                out.append("h1v1h-1z ");
                proof {
                    assert(out@ =~= prev + spec_svg_segment(
                        (x + z) as nat,
                        (y + z) as nat,
                    ));
                    assert(out@ + spec_svg_path_from(*m, z as int, y as int, x + 1) =~= prev
                        + spec_svg_path_from(*m, z as int, y as int, x as int));
                }
            } else {
                proof {
                    assert(out@ + spec_svg_path_from(*m, z as int, y as int, x + 1) =~= prev
                        + spec_svg_path_from(*m, z as int, y as int, x as int));
                }
            }
            x = x + 1;
        }
        proof {
            assert(spec_svg_path_from(*m, z as int, y as int, size as int) == spec_svg_path_from(
                *m,
                z as int,
                y as int + 1,
                0,
            ));
        }
        y = y + 1;
    }
    proof {
        assert(spec_svg_path_from(*m, z as int, size as int, 0) =~= Seq::<char>::empty());
        assert(out@ + Seq::<char>::empty() =~= out@);
        assert(out@ =~= spec_svg_head(*m, z as int) + spec_svg_path_from(*m, z as int, 0, 0));
    }
    out.append("\" fill=\"#000000\"/>\n</svg>\n");
    proof {
        assert(out@ =~= spec_svg(*m, quiet_zone as int));
    }
    Ok(out)
}

} // verus!
