use catfs::flags::{DiskSpace, ParseFault, PERCENT};

#[test]
fn parse() {
    assert_eq!(
        DiskSpace::from_str("25G").unwrap(),
        DiskSpace::Bytes(25 * 1024 * 1024 * 1024)
    );
    assert_eq!(DiskSpace::from_str("25").unwrap(), DiskSpace::Bytes(25));
    assert_eq!(
        DiskSpace::from_str("25%").unwrap(),
        DiskSpace::Percent(25 * PERCENT)
    );
}

#[test]
#[should_panic]
fn parse_negative() {
    DiskSpace::from_str("-25").unwrap();
}

#[test]
#[should_panic]
fn parse_unknown_unit() {
    DiskSpace::from_str("25W").unwrap();
}

#[test]
#[should_panic]
#[allow(non_snake_case)]
fn parse_NaN() {
    DiskSpace::from_str("CAT").unwrap();
}

#[test]
fn parse_units() {
    assert_eq!(DiskSpace::from_str("1K").unwrap(), DiskSpace::Bytes(1024));
    assert_eq!(DiskSpace::from_str("3M").unwrap(), DiskSpace::Bytes(3 * 1024 * 1024));
    assert_eq!(
        DiskSpace::from_str("2T").unwrap(),
        DiskSpace::Bytes(2 * 1024 * 1024 * 1024 * 1024)
    );
    assert_eq!(DiskSpace::from_str("+7").unwrap(), DiskSpace::Bytes(7));
    assert_eq!(DiskSpace::from_str("0").unwrap(), DiskSpace::Bytes(0));
}

#[test]
fn parse_fractions_of_a_percent() {
    assert_eq!(
        DiskSpace::from_str("9.5%").unwrap(),
        DiskSpace::Percent(9 * PERCENT + PERCENT / 2)
    );
    assert_eq!(DiskSpace::from_str(".25%").unwrap(), DiskSpace::Percent(250_000));
    assert_eq!(DiskSpace::from_str("1.%").unwrap(), DiskSpace::Percent(PERCENT));
    assert_eq!(
        DiskSpace::from_str("0.0000019%").unwrap(),
        DiskSpace::Percent(1)
    );
    assert_eq!(DiskSpace::from_str("100%").unwrap(), DiskSpace::Percent(100 * PERCENT));
}

#[test]
fn parse_faults() {
    assert_eq!(DiskSpace::from_str("").unwrap_err().fault(), ParseFault::Empty);
    assert_eq!(DiskSpace::from_str("%").unwrap_err().fault(), ParseFault::Empty);
    assert_eq!(DiskSpace::from_str(".%").unwrap_err().fault(), ParseFault::InvalidDigit);
    assert_eq!(DiskSpace::from_str("-25").unwrap_err().fault(), ParseFault::InvalidDigit);
    assert_eq!(DiskSpace::from_str("CAT").unwrap_err().fault(), ParseFault::InvalidDigit);
    assert_eq!(DiskSpace::from_str("G").unwrap_err().fault(), ParseFault::Empty);
    assert_eq!(DiskSpace::from_str("+G").unwrap_err().fault(), ParseFault::InvalidDigit);
    assert_eq!(DiskSpace::from_str("25W").unwrap_err().fault(), ParseFault::UnknownUnit);
    assert_eq!(
        DiskSpace::from_str("18446744073709551616").unwrap_err().fault(),
        ParseFault::TooLarge
    );
    assert_eq!(DiskSpace::from_str("18446744073709551615").unwrap(), DiskSpace::Bytes(u64::MAX));
    assert_eq!(DiskSpace::from_str("16777216T").unwrap_err().fault(), ParseFault::TooLarge);
    assert_eq!(
        DiskSpace::from_str("18446744073710%").unwrap_err().fault(),
        ParseFault::TooLarge
    );
    assert_eq!(DiskSpace::from_str("1e2%").unwrap_err().fault(), ParseFault::InvalidDigit);
}

#[test]
fn parse_messages() {
    assert_eq!(
        DiskSpace::from_str("25W").unwrap_err().to_str(),
        "unrecognize unit in 25W"
    );
    assert_eq!(
        DiskSpace::from_str("-25").unwrap_err().to_str(),
        "invalid digit found in string"
    );
    assert_eq!(
        DiskSpace::from_str("").unwrap_err().to_str(),
        "cannot parse integer from empty string"
    );
    assert_eq!(
        DiskSpace::from_str("99999999999999999999").unwrap_err().to_str(),
        "number too large to fit in target type"
    );
}

#[test]
fn default_is_no_bytes() {
    assert_eq!(DiskSpace::default(), DiskSpace::Bytes(0));
}
