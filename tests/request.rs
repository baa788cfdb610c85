use matrixgen::ecc::{parse_ecc, EccLevel};
use matrixgen::request::{Mode, Request, UsageError};

fn args(
    qr: bool,
    dm: bool,
    size: Option<u64>,
    ecc: Option<&str>,
) -> Result<Request, UsageError> {
    Request::from_args(
        Some("HELLO".to_string()),
        Some("out.png".to_string()),
        qr,
        dm,
        size,
        ecc.map(|s| s.to_string()),
    )
}

#[test]
fn both_modes_are_rejected() {
    assert_eq!(args(true, true, None, None).err(), Some(UsageError::ConflictingModes));
}

#[test]
fn no_mode_is_rejected() {
    assert_eq!(args(false, false, None, None).err(), Some(UsageError::NoMode));
}

#[test]
fn ecc_with_data_matrix_is_rejected() {
    assert_eq!(args(false, true, None, Some("m")).err(), Some(UsageError::EccWithoutQr));
}

#[test]
fn unknown_ecc_is_rejected() {
    assert_eq!(args(true, false, None, Some("x")).err(), Some(UsageError::UnknownEcc));
    assert_eq!(args(true, false, None, Some("lo")).err(), Some(UsageError::UnknownEcc));
}

#[test]
fn size_beyond_32_bits_is_rejected() {
    assert_eq!(args(true, false, Some(1u64 << 32), None).err(), Some(UsageError::SizeOutOfRange));
    let r = args(true, false, Some(u32::MAX as u64), None).unwrap();
    assert_eq!(r.mode, Mode::Qr { ecc: EccLevel::Medium, size: u32::MAX });
}

#[test]
fn missing_data_and_filename_are_rejected() {
    let r = Request::from_args(None, Some("out.png".to_string()), true, false, None, None);
    assert_eq!(r.err(), Some(UsageError::MissingData));
    let r = Request::from_args(Some("HI".to_string()), None, true, false, None, None);
    assert_eq!(r.err(), Some(UsageError::MissingFilename));
}

#[test]
fn defaults_fill_in() {
    let qr = args(true, false, None, None).unwrap();
    assert_eq!(qr.mode, Mode::Qr { ecc: EccLevel::Medium, size: 1024 });
    let dm = args(false, true, None, None).unwrap();
    assert_eq!(dm.mode, Mode::DataMatrix { block: 5 });
}

#[test]
fn request_keeps_payload_and_filename() {
    let r = args(true, false, Some(256), Some("h")).unwrap();
    assert_eq!(r.data, "HELLO");
    assert_eq!(r.filename, "out.png");
    assert_eq!(r.mode, Mode::Qr { ecc: EccLevel::High, size: 256 });
}

#[test]
fn ecc_names_ignore_case() {
    for t in ["l", "L", "low", "Low", "LOW", "lOw"] {
        assert_eq!(parse_ecc(t), Some(EccLevel::Low), "{}", t);
    }
    for t in ["m", "M", "medium", "Medium", "MEDIUM"] {
        assert_eq!(parse_ecc(t), Some(EccLevel::Medium), "{}", t);
    }
    for t in ["q", "Q", "quartile", "Quartile", "QUARTILE"] {
        assert_eq!(parse_ecc(t), Some(EccLevel::Quartile), "{}", t);
    }
    for t in ["h", "H", "high", "High", "HIGH"] {
        assert_eq!(parse_ecc(t), Some(EccLevel::High), "{}", t);
    }
    for t in ["", "x", "hi", "lowe", "medum", " l", "{"] {
        assert_eq!(parse_ecc(t), None, "{}", t);
    }
}

#[test]
fn usage_errors_have_distinct_messages() {
    let all = [
        UsageError::ConflictingModes,
        UsageError::NoMode,
        UsageError::EccWithoutQr,
        UsageError::UnknownEcc,
        UsageError::SizeOutOfRange,
        UsageError::MissingData,
        UsageError::MissingFilename,
    ];
    for (i, a) in all.iter().enumerate() {
        for b in all.iter().skip(i + 1) {
            assert_ne!(a.message(), b.message());
        }
    }
}

#[test]
fn usage_error_message_text() {
    assert_eq!(UsageError::MissingData.message(), "no data to encode was given");
}
