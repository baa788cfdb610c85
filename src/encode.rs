//! Symbol generation: the QR and Data Matrix encoders, and the images made
//! from their symbols.

use vstd::prelude::*;
use crate::ecc::EccLevel;
use crate::raster::{
    ModuleGrid,
    Raster,
    lemma_quiet_zone_white,
    raster_fits,
    raster_fits_in_memory,
    raster_pixels,
    raster_side,
    rasterize,
};
use datamatrix::data::DataEncodingError;
use datamatrix::{DataMatrix, SymbolList};
use qrcode_generator::qr::{Encoder, ErrorCorrection};
use qrcode_generator::{EncodeError, RenderError, Renderer};

verus! {

#[verifier::external_type_specification]
#[verifier::external_body]
pub struct ExEncodeError(EncodeError);

#[verifier::external_type_specification]
#[verifier::external_body]
pub struct ExRenderError(RenderError);

#[verifier::external_type_specification]
#[verifier::external_body]
pub struct ExDataEncodingError(DataEncodingError);

/// Why an image could not be generated.
#[derive(Clone, Copy, Debug, PartialEq, Eq, Structural)]
pub enum GenerateError {
    /// The payload does not fit any symbol of the chosen kind and level.
    DataTooLong,
    /// The QR symbol could not be drawn at the requested size.
    RenderFailed,
    /// The Data Matrix image would be too large to hold.
    ImageTooLarge,
}

/// The side in modules of the QR symbol of `text` at `level`, if the text fits one.
pub uninterp spec fn qr_side_of(text: Seq<char>, level: EccLevel) -> Option<nat>;

/// The pixels, row by row, of the QR symbol of `text` at `level` drawn
/// `size` pixels on each side.
pub uninterp spec fn qr_pixels_of(text: Seq<char>, level: EccLevel, size: nat) -> Seq<u8>;

/// The Data Matrix symbol of `text`, if it fits one: its width and height in
/// modules and its modules row by row, `true` for dark.
pub uninterp spec fn data_matrix_of(text: Seq<char>) -> Option<(nat, nat, Seq<bool>)>;

/// Relies on `qr::Encoder::encode_text` with the given level, then on
/// `Renderer::new` and `Renderer::to_luma8` at `size` pixels. The outer error
/// is the encoder's: the text fits no symbol of versions 1 to 40, whose sides
/// are 21 to 177 modules. The inner result is the renderer's: it fails
/// exactly when the symbol and its four-module quiet zone on each side do not
/// fit `size` pixels, or when `size * size` overflows; otherwise it gives
/// `size * size` pixels, row by row, each 0 or 255. Both depend on the
/// arguments alone.
#[verifier::external_body]
fn qr_image(text: &str, level: EccLevel, size: usize) -> (r: Result<Result<Vec<u8>, RenderError>, EncodeError>)
    ensures
        match r {
            Err(_) => qr_side_of(text@, level) is None,
            Ok(drawn) => {
                &&& qr_side_of(text@, level) is Some
                &&& 21 <= qr_side_of(text@, level)->Some_0 <= 177
                &&& (drawn is Ok <==> (size >= qr_side_of(text@, level)->Some_0 + 8 && size * size
                    <= usize::MAX))
                &&& drawn is Ok ==> drawn->Ok_0@ == qr_pixels_of(text@, level, size as nat)
                &&& drawn is Ok ==> drawn->Ok_0@.len() == size * size
                &&& drawn is Ok ==> forall|i: int|
                    0 <= i < drawn->Ok_0@.len() ==> #[trigger] drawn->Ok_0@[i] == 0 || drawn->Ok_0@[i] == 255
            },
        },
{
    let error_correction = match level {
        EccLevel::Low => ErrorCorrection::Low,
        EccLevel::Medium => ErrorCorrection::Medium,
        EccLevel::Quartile => ErrorCorrection::Quartile,
        EccLevel::High => ErrorCorrection::High,
    };
    match Encoder::new(error_correction).encode_text(text) {
        Ok(symbol) => Ok(Renderer::new(&symbol, size).to_luma8()),
        Err(e) => Err(e),
    }
}

/// Relies on `DataMatrix::encode` with the default symbol list, and on
/// `DataMatrix::bitmap` with `Bitmap::width`, `Bitmap::height` and
/// `Bitmap::bits`: the symbol of the text's UTF-8 bytes as a row-major grid,
/// one module per cell, which depends on the text alone.
#[verifier::external_body]
fn encode_data_matrix(text: &str) -> (r: Result<ModuleGrid, DataEncodingError>)
    ensures
        match r {
            Ok(g) => g.wf() && data_matrix_of(text@) == Some(
                (g.width as nat, g.height as nat, g.modules@),
            ),
            Err(_) => data_matrix_of(text@) is None,
        },
{
    match DataMatrix::encode(text.as_bytes(), SymbolList::default()) {
        Ok(code) => {
            let bitmap = code.bitmap();
            Ok(ModuleGrid { width: bitmap.width(), height: bitmap.height(), modules: bitmap.bits().to_vec() })
        },
        Err(e) => Err(e),
    }
}

/// Whether a QR symbol of side `side` modules, with its quiet zone, can be
/// drawn at `size` pixels on each side.
pub open spec fn qr_drawable(side: nat, size: u32) -> bool {
    size >= side + 8 && size * size <= usize::MAX
}

/// What generating a QR code of `text` at `level` and `size` pixels gives:
/// `DataTooLong` when the text fits no symbol, `RenderFailed` when the symbol
/// cannot be drawn at that size, and otherwise the `size` by `size` black
/// and white image of the symbol.
pub open spec fn qr_outcome(text: Seq<char>, level: EccLevel, size: u32, r: Result<Raster, GenerateError>) -> bool {
    match qr_side_of(text, level) {
        None => r == Err::<Raster, GenerateError>(GenerateError::DataTooLong),
        Some(side) => {
            &&& 21 <= side <= 177
            &&& if qr_drawable(side, size) {
                match r {
                    Ok(img) => {
                        &&& img.wf()
                        &&& img.width == size
                        &&& img.height == size
                        &&& img.pixels@ == qr_pixels_of(text, level, size as nat)
                        &&& forall|i: int|
                            0 <= i < img.pixels@.len() ==> #[trigger] img.pixels@[i] == 0 || img.pixels@[i]
                                == 255
                    },
                    Err(_) => false,
                }
            } else {
                r == Err::<Raster, GenerateError>(GenerateError::RenderFailed)
            }
        },
    }
}

/// What generating a Data Matrix of `text` at `block` pixels per module
/// gives: `DataTooLong` when no symbol holds the text, `ImageTooLarge` when
/// the image cannot be held, and otherwise the rasterised symbol.
pub open spec fn data_matrix_outcome(text: Seq<char>, block: u32, r: Result<Raster, GenerateError>) -> bool {
    match data_matrix_of(text) {
        None => r == Err::<Raster, GenerateError>(GenerateError::DataTooLong),
        Some((w, h, modules)) => if raster_fits(w as int, h as int, block as int) {
            match r {
                Ok(img) => img.wf() && img.width == raster_side(w as int, block as int) && img.height
                    == raster_side(h as int, block as int) && img.pixels@ == raster_pixels(
                    w as int,
                    h as int,
                    modules,
                    block as int,
                ),
                Err(_) => false,
            }
        } else {
            r == Err::<Raster, GenerateError>(GenerateError::ImageTooLarge)
        },
    }
}

/// Generates a QR code of `input` at error-correction level `ecc`, as a
/// `size` by `size` grayscale image.
pub fn generate_qr(input: &str, ecc: EccLevel, size: u32) -> (r: Result<Raster, GenerateError>)
    ensures
        qr_outcome(input@, ecc, size, r),
{
    match qr_image(input, ecc, size as usize) {
        Err(_) => Err(GenerateError::DataTooLong),
        Ok(Ok(pixels)) => Ok(Raster { width: size, height: size, pixels }),
        Ok(Err(_)) => Err(GenerateError::RenderFailed),
    }
}

/// Generates a Data Matrix of `input` with each module drawn as a
/// `blocksize` by `blocksize` square inside a one-module white border.
pub fn generate_data_matrix(input: &str, blocksize: u32) -> (r: Result<Raster, GenerateError>)
    ensures
        data_matrix_outcome(input@, blocksize, r),
{
    match encode_data_matrix(input) {
        Err(_) => Err(GenerateError::DataTooLong),
        Ok(grid) => {
            if raster_fits_in_memory(grid.width, grid.height, blocksize) {
                Ok(rasterize(&grid, blocksize))
            } else {
                Err(GenerateError::ImageTooLarge)
            }
        },
    }
}

/// QR generation depends on its arguments alone: two results for the same
/// text, level and size either both fail with the same error or are the same
/// image.
pub proof fn lemma_qr_deterministic(
    text: Seq<char>,
    level: EccLevel,
    size: u32,
    r1: Result<Raster, GenerateError>,
    r2: Result<Raster, GenerateError>,
)
    requires
        qr_outcome(text, level, size, r1),
        qr_outcome(text, level, size, r2),
    ensures
        r1 is Ok <==> r2 is Ok,
        r1 is Err ==> r1->Err_0 == r2->Err_0,
        r1 is Ok ==> r1->Ok_0.width == r2->Ok_0.width && r1->Ok_0.height == r2->Ok_0.height
            && r1->Ok_0.pixels@ == r2->Ok_0.pixels@,
{
}

/// At a size that holds the largest QR symbol with its quiet zone, QR
/// generation fails exactly when the text fits no symbol, and never falls
/// back to another level or size.
pub proof fn lemma_qr_fails_only_when_too_long(
    text: Seq<char>,
    level: EccLevel,
    size: u32,
    r: Result<Raster, GenerateError>,
)
    requires
        qr_outcome(text, level, size, r),
        size >= 185,
        size * size <= usize::MAX,
    ensures
        r is Err <==> qr_side_of(text, level) is None,
        r is Err ==> r->Err_0 == GenerateError::DataTooLong,
        r is Ok ==> r->Ok_0.width == size && r->Ok_0.height == size,
{
}

/// A generated Data Matrix image is the symbol with a one-module quiet zone:
/// it is `(w + 2) * b` by `(h + 2) * b` pixels for a symbol of `w` by `h`
/// modules at `b` pixels per module, and every pixel among its first or last
/// `b` rows or columns is white.
pub proof fn lemma_data_matrix_image(
    text: Seq<char>,
    block: u32,
    r: Result<Raster, GenerateError>,
    px: int,
    py: int,
)
    requires
        data_matrix_outcome(text, block, r),
        r is Ok,
        block > 0,
        0 <= px < r->Ok_0.width,
        0 <= py < r->Ok_0.height,
    ensures
        data_matrix_of(text) is Some,
        r->Ok_0.width == raster_side(data_matrix_of(text)->Some_0.0 as int, block as int),
        r->Ok_0.height == raster_side(data_matrix_of(text)->Some_0.1 as int, block as int),
        px < block || px >= r->Ok_0.width - block || py < block || py >= r->Ok_0.height - block
            ==> r->Ok_0.pixels@[py * r->Ok_0.width + px] == 255,
{
    let (w, h, modules) = data_matrix_of(text)->Some_0;
    if px < block || px >= r->Ok_0.width - block || py < block || py >= r->Ok_0.height - block {
        lemma_quiet_zone_white(w as int, h as int, modules, block as int, px, py);
    }
}

} // verus!
