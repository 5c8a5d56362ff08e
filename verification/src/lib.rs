//! Rendering of QR module matrices.
//!
//! The library takes an abstract square boolean matrix (the QR modules), a
//! quiet-zone width and, for raster output, a scale factor, and produces one
//! of three deterministic artifacts that agree on geometry: a sequence of
//! double-character text lines, a two-channel (luminance + alpha) pixel
//! buffer, or an SVG document string. Encoding text into a module matrix is
//! delegated to the external `qrcodegen` crate.

pub mod error;
pub mod format;
pub mod geometry;
pub mod laws;
pub mod matrix;
pub mod qr;
pub mod raster;
pub mod svg;
pub mod text;

pub use error::{EncodeError, FormatError, RenderError};
pub use format::check_image_format;
pub use matrix::ModuleMatrix;
pub use qr::encode;
pub use raster::{make_image, RasterImage};
pub use svg::make_svg;
pub use text::console_qr;
