use vstd::prelude::*;

use crate::error::EncodeError;
use crate::matrix::ModuleMatrix;

verus! {

/// Declares qrcodegen::QrCode, the external encoder's output type, so that it
/// can stand in signatures; it stays opaque and is read only through the
/// trusted functions below.
#[verifier::external_type_specification]
#[verifier::external_body]
pub struct ExQrCode(qrcodegen::QrCode);

/// The side length that `qrcodegen::QrCode::size` reports for `qr`.
pub uninterp spec fn qr_size(qr: qrcodegen::QrCode) -> int;

/// The module that `qrcodegen::QrCode::get_module` reports for `qr` at
/// `(x, y)`: the result depends on the QR code and the coordinates alone.
pub uninterp spec fn qr_module(qr: qrcodegen::QrCode, x: int, y: int) -> bool;

/// Relies on qrcodegen::QrCode::size: the side length in modules, equal to
/// version * 4 + 17 for a version in [1, 40], hence always in [21, 177].
#[verifier::external_body]
fn qr_code_size(qr: &qrcodegen::QrCode) -> (r: i32)
    ensures
        r == qr_size(*qr),
        21 <= r <= 177,
        (r - 17) % 4 == 0,
{
    qr.size()
}

/// Relies on qrcodegen::QrCode::get_module: the module at `(x, y)`, light
/// (false) whenever the coordinates are out of bounds.
#[verifier::external_body]
fn qr_code_module(qr: &qrcodegen::QrCode, x: i32, y: i32) -> (r: bool)
    ensures
        r == qr_module(*qr, x as int, y as int),
        !(0 <= x < qr_size(*qr) && 0 <= y < qr_size(*qr)) ==> !r,
{
    qr.get_module(x, y)
}

/// Whether the external encoder can represent a text as a QR code at the low
/// error-correction level: `QrCode::encode_text` neither does I/O nor draws
/// randomness, so its success is a function of the characters alone.
pub uninterp spec fn qr_text_encodable(s: Seq<char>) -> bool;

/// Relies on qrcodegen::QrCode::encode_text at the low error-correction
/// level: it succeeds on exactly the texts that fit some QR code version at
/// that level; on success the returned code's side length is version * 4 + 17
/// for a version in [1, 40]; on failure the error tells a too-long segment
/// apart from data over the version-40 capacity, with the offending bit
/// counts.
#[verifier::external_body]
fn qr_encode_text(text: &str) -> (r: Result<qrcodegen::QrCode, EncodeError>)
    ensures
        r is Ok <==> qr_text_encodable(text@),
        r matches Ok(qr) ==> 21 <= qr_size(qr) <= 177 && (qr_size(qr) - 17) % 4 == 0,
{
    match qrcodegen::QrCode::encode_text(text, qrcodegen::QrCodeEcc::Low) {
        Ok(qr) => Ok(qr),
        Err(qrcodegen::DataTooLong::SegmentTooLong) => Err(EncodeError::SegmentTooLong),
        Err(qrcodegen::DataTooLong::DataOverCapacity(len, cap)) => Err(
            EncodeError::DataOverCapacity(len, cap),
        ),
    }
}

/// Copies an encoded QR code into the library's own module matrix, cell for
/// cell.
pub fn matrix_from_qr(qr: &qrcodegen::QrCode) -> (m: ModuleMatrix)
    ensures
        m.inv(),
        m.spec_size() == qr_size(*qr),
        21 <= m.spec_size() <= 177,
        (m.spec_size() - 17) % 4 == 0,
        forall|x: int, y: int|
            0 <= x < m.spec_size() && 0 <= y < m.spec_size() ==> m.at(x, y) == qr_module(*qr, x, y),
{
    let side: i32 = qr_code_size(qr);
    let size: usize = side as usize;
    let mut cells: Vec<bool> = Vec::new();
    let mut y: usize = 0;
    while y < size
        invariant
            size == qr_size(*qr),
            21 <= size <= 177,
            y <= size,
            cells@.len() == y * size,
            forall|x: int, r: int|
                0 <= x < size && 0 <= r < y ==> cells@[r * size + x] == qr_module(*qr, x, r),
        decreases size - y,
    {
        let mut x: usize = 0;
        while x < size
            invariant
                size == qr_size(*qr),
                21 <= size <= 177,
                y < size,
                x <= size,
                cells@.len() == y * size + x,
                forall|c: int, r: int|
                    0 <= c < size && 0 <= r < y ==> cells@[r * size + c] == qr_module(*qr, c, r),
                forall|c: int| 0 <= c < x ==> cells@[y * size + c] == qr_module(*qr, c, y as int),
        decreases size - x,
    {
            cells.push(qr_code_module(qr, x as i32, y as i32));
            proof {
                assert forall|c: int, r: int|
                    0 <= c < size && 0 <= r < y implies #[trigger] cells@[r * size + c]
                    == qr_module(*qr, c, r) by {
                    assert(r * size + c < y * size) by (nonlinear_arith)
                        requires
                            0 <= c < size,
                            0 <= r < y,
                    ;
                }
            }
            x = x + 1;
        }
        proof {
            assert((y + 1) * size == y * size + size) by (nonlinear_arith);
        }
        y = y + 1;
    }
    let m = match ModuleMatrix::from_cells(size, cells) {
        Some(m) => m,
        None => vstd::pervasive::unreached(),
    };
    proof {
        assert(forall|x: int, y: int|
            0 <= x < size && 0 <= y < size ==> m.at(x, y) == qr_module(*qr, x, y));
    }
    m
}

/// Encodes `url` as a QR code at the low error-correction level and returns
/// its module matrix: a square of side version * 4 + 17 for some version in
/// [1, 40]. Succeeds on exactly the encodable texts; fails when the external
/// encoder rejects the text as too long for every version at that level.
pub fn encode(url: Option<&str>) -> (r: Result<ModuleMatrix, EncodeError>)
    requires
        url is Some,
    ensures
        url matches Some(t) ==> (r is Ok <==> qr_text_encodable(t@)),
        r matches Ok(m) ==> m.inv() && 21 <= m.spec_size() <= 177 && (m.spec_size() - 17) % 4
            == 0,
{
    let text = match url {
        Some(t) => t,
        None => vstd::pervasive::unreached(),
    };
    match qr_encode_text(text) {
        Ok(qr) => Ok(matrix_from_qr(&qr)),
        Err(e) => Err(e),
    }
}

} // verus!
