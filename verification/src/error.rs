use vstd::prelude::*;

verus! {

/// Failure of a renderer: the caller handed geometry that no output can be
/// produced for, asked for a buffer beyond the safe allocation bound, or named
/// a raster format that cannot be written.
#[derive(Debug, Clone, Copy, PartialEq, Eq, Structural)]
pub enum RenderError {
    /// Non-positive scale, negative quiet zone, or an empty matrix.
    InvalidGeometry,
    /// The requested pixel buffer would exceed the safe allocation bound;
    /// carries the offending dimensions in pixels.
    CapacityExceeded { width: u128, height: u128 },
    /// The requested raster file extension is not one of the supported ones.
    UnsupportedFormat,
}

/// Failure of the external QR encoder: the text does not fit in any QR code
/// version at the chosen error-correction level.
#[derive(Debug, Clone, Copy, PartialEq, Eq, Structural)]
pub enum EncodeError {
    /// A single segment of the input is too long to be represented.
    SegmentTooLong,
    /// The encoded data length in bits exceeds the maximum capacity in bits.
    DataOverCapacity(usize, usize),
}

/// Returned when a potentially invalid combination of choices is made while
/// building a string to embed as a QR code. Carries a recommendation for
/// corrective action.
#[derive(Debug, Clone)]
pub struct FormatError(String);

impl FormatError {
    /// The recommendation text this error carries.
    pub closed spec fn spec_recommendation(&self) -> Seq<char> {
        self.0@
    }

    pub fn new(recommendation: String) -> (r: FormatError)
        ensures
            r.spec_recommendation() == recommendation@,
    {
        FormatError(recommendation)
    }

    /// The corrective action recommended to the caller.
    pub fn description(&self) -> (r: &str)
        ensures
            r@ == self.spec_recommendation(),
    {
        self.0.as_str()
    }
}

} // verus!
