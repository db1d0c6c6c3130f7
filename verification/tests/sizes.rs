use conpty_oxide::{ErrorKind, ExitStatus, Size};

#[test]
fn try_new_accepts_boundary_values() {
    let min = Size::try_new(1, 1).expect("1x1 must be valid");
    assert_eq!((min.rows(), min.cols()), (1, 1));

    let max =
        Size::try_new(Size::MAX_DIMENSION, Size::MAX_DIMENSION).expect("32767x32767 must be valid");
    assert_eq!((max.rows(), max.cols()), (32767, 32767));
}

#[test]
fn try_new_rejects_zero() {
    let rows = Size::try_new(0, 80).expect_err("zero rows must fail");
    assert_eq!(rows.kind(), ErrorKind::InvalidSize);
    assert!(rows.to_string().contains("0 rows x 80 cols"));

    let cols = Size::try_new(24, 0).expect_err("zero columns must fail");
    assert_eq!(cols.kind(), ErrorKind::InvalidSize);
    assert!(cols.to_string().contains("24 rows x 0 cols"));
}

#[test]
fn try_new_rejects_values_above_max() {
    let rows = Size::try_new(32768, 80).expect_err("oversized rows must fail");
    assert_eq!(rows.kind(), ErrorKind::InvalidSize);
    let cols = Size::try_new(24, 32768).expect_err("oversized columns must fail");
    assert_eq!(cols.kind(), ErrorKind::InvalidSize);
}

#[test]
fn default_is_24_rows_by_80_cols() {
    let size = Size::default();
    assert_eq!(size.rows(), 24);
    assert_eq!(size.cols(), 80);
    assert_eq!(size, Size::try_new(24, 80).unwrap());
}

#[test]
fn display_is_cols_then_rows() {
    assert_eq!(Size::default().to_string(), "80x24");
    assert_eq!(
        Size::try_new(50, 132)
            .expect("the hard-coded size is valid")
            .to_string(),
        "132x50"
    );
}

#[test]
fn to_i16_pair_is_rows_then_cols() {
    assert_eq!(Size::default().to_i16_pair(), (24, 80));
    assert_eq!(
        Size::try_new(Size::MAX_DIMENSION, 1)
            .expect("the hard-coded size is valid")
            .to_i16_pair(),
        (i16::MAX, 1)
    );
}

#[test]
fn success_is_exactly_code_zero() {
    assert!(ExitStatus::from_raw(0).success());
    assert!(!ExitStatus::from_raw(1).success());
    assert!(!ExitStatus::from_raw(u32::MAX).success());
}

#[test]
fn code_returns_the_raw_value() {
    assert_eq!(ExitStatus::from_raw(7).code(), 7);
    // 259 is `STILL_ACTIVE`; as a *reported* exit code it is an ordinary
    // value, because it is only read after the wait completed.
    assert_eq!(ExitStatus::from_raw(259).code(), 259);
}

#[test]
fn display_matches_std_wording() {
    assert_eq!(ExitStatus::from_raw(3).to_string(), "exit code: 3");
    assert_eq!(ExitStatus::from_raw(259).to_string(), "exit code: 259");
    assert_eq!(
        ExitStatus::from_raw(0xC000_013A).to_string(),
        "exit code: 0xc000013a"
    );
    assert_eq!(
        ExitStatus::from_raw(u32::MAX).to_string(),
        "exit code: 0xffffffff"
    );
}

#[test]
fn display_switches_to_hexadecimal_at_the_high_bit() {
    assert_eq!(
        ExitStatus::from_raw(0x7FFF_FFFF).to_string(),
        "exit code: 2147483647"
    );
    assert_eq!(
        ExitStatus::from_raw(0x8000_0000).to_string(),
        "exit code: 0x80000000"
    );
    assert_eq!(ExitStatus::from_raw(0).to_string(), "exit code: 0");
}
