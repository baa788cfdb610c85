//! Matrix-code generation: argument validation, error-correction level
//! parsing, and rasterisation of a Data Matrix module grid, with the symbol
//! encoders themselves supplied by `qrcode-generator` and `datamatrix`.

pub mod ecc;
pub mod raster;
pub mod encode;
pub mod request;
