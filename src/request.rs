//! Validated encoding requests, built from the values given on the command line.

use vstd::prelude::*;
use crate::ecc::{EccLevel, ecc_of, parse_ecc};
use crate::encode::{GenerateError, data_matrix_outcome, generate_data_matrix, generate_qr, qr_outcome};
use crate::raster::Raster;

verus! {

/// Image size in pixels of a QR code when none is given.
pub const DEFAULT_QR_SIZE: u32 = 1024;

/// Pixels per module of a Data Matrix when no size is given.
pub const DEFAULT_BLOCK_SIZE: u32 = 5;

/// The kind of symbol to generate, with its parameters.
#[derive(Clone, Copy, Debug, PartialEq, Eq, Structural)]
pub enum Mode {
    /// A QR code at the given level, `size` pixels on each side.
    Qr { ecc: EccLevel, size: u32 },
    /// A Data Matrix, each module `block` pixels on each side.
    DataMatrix { block: u32 },
}

/// A complete, validated request.
pub struct Request {
    pub data: String,
    pub filename: String,
    pub mode: Mode,
}

/// Why the given values do not make a request.
#[derive(Clone, Copy, Debug, PartialEq, Eq, Structural)]
pub enum UsageError {
    /// Both QR and Data Matrix were selected.
    ConflictingModes,
    /// Neither QR nor Data Matrix was selected.
    NoMode,
    /// An error-correction level was given for a Data Matrix.
    EccWithoutQr,
    /// The error-correction level is not one of the recognised names.
    UnknownEcc,
    /// The size does not fit 32 bits.
    SizeOutOfRange,
    /// No payload was given.
    MissingData,
    /// No output file name was given.
    MissingFilename,
}

/// The description of each usage error.
pub open spec fn message_text(e: UsageError) -> Seq<char> {
    match e {
        UsageError::ConflictingModes => "the QR and Data Matrix modes cannot be combined"@,
        UsageError::NoMode => "one of the QR or Data Matrix modes must be chosen"@,
        UsageError::EccWithoutQr => "an error correction level applies to QR codes only"@,
        UsageError::UnknownEcc => "the error correction level must be l, m, q or h, or low, medium, quartile or high"@,
        UsageError::SizeOutOfRange => "the size must be below 4294967296"@,
        UsageError::MissingData => "no data to encode was given"@,
        UsageError::MissingFilename => "no output file name was given"@,
    }
}

impl UsageError {
    /// A one-line description for the user.
    pub fn message(&self) -> (r: String)
        ensures
            r@ == message_text(*self),
    {
        match self {
            UsageError::ConflictingModes => String::from_str("the QR and Data Matrix modes cannot be combined"),
            UsageError::NoMode => String::from_str("one of the QR or Data Matrix modes must be chosen"),
            UsageError::EccWithoutQr => String::from_str("an error correction level applies to QR codes only"),
            UsageError::UnknownEcc => String::from_str("the error correction level must be l, m, q or h, or low, medium, quartile or high"),
            UsageError::SizeOutOfRange => String::from_str("the size must be below 4294967296"),
            UsageError::MissingData => String::from_str("no data to encode was given"),
            UsageError::MissingFilename => String::from_str("no output file name was given"),
        }
    }
}

/// Each usage error has a message of its own.
pub proof fn lemma_messages_distinct(a: UsageError, b: UsageError)
    requires
        a != b,
    ensures
        message_text(a) != message_text(b),
{
    reveal_strlit("the QR and Data Matrix modes cannot be combined");
    reveal_strlit("one of the QR or Data Matrix modes must be chosen");
    reveal_strlit("an error correction level applies to QR codes only");
    reveal_strlit("the error correction level must be l, m, q or h, or low, medium, quartile or high");
    reveal_strlit("the size must be below 4294967296");
    reveal_strlit("no data to encode was given");
    reveal_strlit("no output file name was given");
    if message_text(a) == message_text(b) {
        assert(message_text(a)[0] == message_text(b)[0]);
        assert(message_text(a).len() == message_text(b).len());
    }
}

pub open spec fn opt_view(o: Option<String>) -> Option<Seq<char>> {
    match o {
        Some(s) => Some(s@),
        None => None,
    }
}

/// The first rule that the given values break, if any.
pub open spec fn usage_error(
    qr: bool,
    dm: bool,
    size: Option<u64>,
    ecc: Option<Seq<char>>,
    has_data: bool,
    has_filename: bool,
) -> Option<UsageError> {
    if qr && dm {
        Some(UsageError::ConflictingModes)
    } else if !qr && !dm {
        Some(UsageError::NoMode)
    } else if dm && ecc is Some {
        Some(UsageError::EccWithoutQr)
    } else if ecc is Some && ecc_of(ecc->Some_0) is None {
        Some(UsageError::UnknownEcc)
    } else if size is Some && size->Some_0 > u32::MAX {
        Some(UsageError::SizeOutOfRange)
    } else if !has_data {
        Some(UsageError::MissingData)
    } else if !has_filename {
        Some(UsageError::MissingFilename)
    } else {
        None
    }
}

/// The mode that valid values select, defaults filled in.
pub open spec fn mode_of(qr: bool, size: Option<u64>, ecc: Option<Seq<char>>) -> Mode {
    if qr {
        Mode::Qr {
            ecc: match ecc {
                Some(t) => ecc_of(t)->Some_0,
                None => EccLevel::Medium,
            },
            size: match size {
                Some(s) => s as u32,
                None => DEFAULT_QR_SIZE,
            },
        }
    } else {
        Mode::DataMatrix {
            block: match size {
                Some(s) => s as u32,
                None => DEFAULT_BLOCK_SIZE,
            },
        }
    }
}

impl Request {
    /// Validates the values given on the command line: the payload, the
    /// output file name, the two mode flags, the size and the
    /// error-correction level, each `None` when it was not given.
    pub fn from_args(
        data: Option<String>,
        filename: Option<String>,
        qr: bool,
        dm: bool,
        size: Option<u64>,
        ecc: Option<String>,
    ) -> (r: Result<Request, UsageError>)
        ensures
            match usage_error(qr, dm, size, opt_view(ecc), data is Some, filename is Some) {
                Some(e) => r == Err::<Request, UsageError>(e),
                None => r is Ok && r->Ok_0.data@ == data->Some_0@ && r->Ok_0.filename@
                    == filename->Some_0@ && r->Ok_0.mode == mode_of(qr, size, opt_view(ecc)),
            },
    {
        if qr && dm {
            return Err(UsageError::ConflictingModes);
        }
        if !qr && !dm {
            return Err(UsageError::NoMode);
        }
        let level = match &ecc {
            Some(token) => {
                if dm {
                    return Err(UsageError::EccWithoutQr);
                }
                match parse_ecc(token.as_str()) {
                    Some(level) => level,
                    None => return Err(UsageError::UnknownEcc),
                }
            },
            None => EccLevel::Medium,
        };
        let size = match size {
            Some(s) => {
                if s > u32::MAX as u64 {
                    return Err(UsageError::SizeOutOfRange);
                }
                Some(s as u32)
            },
            None => None,
        };
        let data = match data {
            Some(d) => d,
            None => return Err(UsageError::MissingData),
        };
        let filename = match filename {
            Some(f) => f,
            None => return Err(UsageError::MissingFilename),
        };
        let mode = if qr {
            Mode::Qr {
                ecc: level,
                size: match size {
                    Some(s) => s,
                    None => DEFAULT_QR_SIZE,
                },
            }
        } else {
            Mode::DataMatrix {
                block: match size {
                    Some(s) => s,
                    None => DEFAULT_BLOCK_SIZE,
                },
            }
        };
        Ok(Request { data, filename, mode })
    }

    /// Generates the image that the request asks for.
    pub fn generate(&self) -> (r: Result<Raster, GenerateError>)
        ensures
            match self.mode {
                Mode::Qr { ecc, size } => qr_outcome(self.data@, ecc, size, r),
                Mode::DataMatrix { block } => data_matrix_outcome(self.data@, block, r),
            },
    {
        match self.mode {
            Mode::Qr { ecc, size } => generate_qr(self.data.as_str(), ecc, size),
            Mode::DataMatrix { block } => generate_data_matrix(self.data.as_str(), block),
        }
    }
}

/// Exactly one mode: values that select both modes, or neither, never make a
/// request, and a valid request is a QR request exactly when QR was selected.
pub proof fn lemma_one_mode(
    qr: bool,
    dm: bool,
    size: Option<u64>,
    ecc: Option<Seq<char>>,
    has_data: bool,
    has_filename: bool,
)
    ensures
        qr == dm ==> usage_error(qr, dm, size, ecc, has_data, has_filename) is Some,
        usage_error(qr, dm, size, ecc, has_data, has_filename) is None ==> qr != dm && (mode_of(
            qr,
            size,
            ecc,
        ) is Qr <==> qr),
{
}

/// An error-correction level given with the Data Matrix mode never makes a
/// request.
pub proof fn lemma_ecc_only_for_qr(
    qr: bool,
    dm: bool,
    size: Option<u64>,
    ecc: Option<Seq<char>>,
    has_data: bool,
    has_filename: bool,
)
    requires
        dm,
        ecc is Some,
    ensures
        usage_error(qr, dm, size, ecc, has_data, has_filename) is Some,
{
}

/// Without a size a QR code is 1024 pixels wide and a Data Matrix module 5
/// pixels; without a level a QR code uses the medium level.
pub proof fn lemma_defaults(qr: bool, size: Option<u64>, ecc: Option<Seq<char>>)
    ensures
        size is None && qr ==> mode_of(qr, size, ecc)->Qr_size == 1024,
        size is None && !qr ==> mode_of(qr, size, ecc)->DataMatrix_block == 5,
        ecc is None && qr ==> mode_of(qr, size, ecc)->Qr_ecc == EccLevel::Medium,
{
}

} // verus!
