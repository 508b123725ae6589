use phonenumbers::{
    format_number, is_valid_number, parse, resolve, CompareOp, NumberParseException, PyPhoneNumber,
    PyPhoneNumberFormat,
};
use phonenumbers::phone_number::{E164, INTERNATIONAL, NATIONAL, RFC3966};

fn swiss_number() -> PyPhoneNumber {
    parse("+41 44 668 1800", None).unwrap()
}

#[test]
fn parse_international_plus() {
    let n = swiss_number();
    assert_eq!(n.country_code(), 41);
    assert_eq!(n.national_number(), 446681800);
    assert!(n.extension().is_none());
    assert!(n.carrier().is_none());
}

#[test]
fn parse_is_valid() {
    let n = swiss_number();
    assert!(is_valid_number(&n));
    assert!(n.is_valid());
}

#[test]
fn format_e164() {
    let n = swiss_number();
    assert_eq!(format_number(&n, "E164"), "+41446681800");
}

#[test]
fn format_international() {
    let n = swiss_number();
    assert_eq!(format_number(&n, "INTERNATIONAL"), "+41 44 668 18 00");
}

#[test]
fn format_rfc3966() {
    let n = swiss_number();
    assert_eq!(format_number(&n, "RFC3966"), "tel:+41-44-668-18-00");
}

#[test]
fn parse_with_region_and_national_format() {
    let n = parse("044 668 1800", Some("CH")).unwrap();
    assert_eq!(n.country_code(), 41);
    assert_eq!(n.national_number(), 446681800);
    assert_eq!(format_number(&n, "NATIONAL"), "044 668 18 00");
}

#[test]
fn parse_with_lowercase_region() {
    let n = parse("044 668 1800", Some("ch")).unwrap();
    assert_eq!(n.country_code(), 41);
    assert_eq!(n.national_number(), 446681800);
}

#[test]
fn parse_too_few_digits_fails() {
    let err = parse("123", None).unwrap_err();
    match &err {
        NumberParseException::Engine(m) => assert_eq!(m, "invalid country code"),
        NumberParseException::InvalidRegion => panic!("wrong error kind"),
    }
}

#[test]
fn parse_unknown_region_fails() {
    let err = parse("44 668 1800", Some("XX")).unwrap_err();
    assert!(matches!(err, NumberParseException::InvalidRegion));
    assert_eq!(err.message(), "invalid region");
}

#[test]
fn format_bogus_mode_falls_back_to_default() {
    let n = swiss_number();
    let bogus = format_number(&n, "BOGUS");
    assert_eq!(bogus, "+41446681800");
    assert_eq!(bogus, format_number(&n, "E164"));
}

#[test]
fn round_trip_e164() {
    let n = swiss_number();
    let e164 = format_number(&n, "E164");
    let reparsed = parse(&e164, None).unwrap();
    assert_eq!(format_number(&reparsed, "E164"), e164);
}

#[test]
fn resolve_known_regions() {
    assert_eq!(resolve("CH").unwrap(), phonenumber::country::Id::CH);
    assert_eq!(resolve("ch").unwrap(), phonenumber::country::Id::CH);
    assert_eq!(resolve("de").unwrap(), phonenumber::country::Id::DE);
}

#[test]
fn resolve_is_idempotent_under_normalization() {
    // resolving the already-normalized spelling gives the same identifier
    assert_eq!(resolve("us").unwrap(), resolve("US").unwrap());
}

#[test]
fn resolve_non_ascii_region_is_unicode_uppercased() {
    // the long s (U+017F) upper-cases to the ASCII 'S'
    assert_eq!(resolve("\u{17f}e").unwrap(), phonenumber::country::Id::SE);
}

#[test]
fn resolve_unknown_region_fails() {
    let err = resolve("XX").unwrap_err();
    assert!(matches!(err, NumberParseException::InvalidRegion));
    assert_eq!(err.message(), "invalid region");
    assert!(resolve("").is_err());
    assert!(resolve("Switzerland").is_err());
}

#[test]
fn get_mode_recognizes_the_four_names() {
    assert_eq!(
        PyPhoneNumberFormat::get_mode("E164"),
        Some(PyPhoneNumberFormat::E164)
    );
    assert_eq!(
        PyPhoneNumberFormat::get_mode("INTERNATIONAL"),
        Some(PyPhoneNumberFormat::International)
    );
    assert_eq!(
        PyPhoneNumberFormat::get_mode("NATIONAL"),
        Some(PyPhoneNumberFormat::National)
    );
    assert_eq!(
        PyPhoneNumberFormat::get_mode("RFC3966"),
        Some(PyPhoneNumberFormat::Rfc3966)
    );
}

#[test]
fn get_mode_rejects_everything_else() {
    assert_eq!(PyPhoneNumberFormat::get_mode("e164"), None);
    assert_eq!(PyPhoneNumberFormat::get_mode(""), None);
    assert_eq!(PyPhoneNumberFormat::get_mode("RFC 3966"), None);
    assert_eq!(PyPhoneNumberFormat::get_mode("BOGUS"), None);
}

#[test]
fn mode_name_constants() {
    assert_eq!(E164, "E164");
    assert_eq!(INTERNATIONAL, "INTERNATIONAL");
    assert_eq!(NATIONAL, "NATIONAL");
    assert_eq!(RFC3966, "RFC3966");
}

#[test]
fn equality_of_equal_inputs() {
    let a = swiss_number();
    let b = swiss_number();
    assert_eq!(a.rich_compare(&b, CompareOp::Equal).unwrap(), true);
    assert_eq!(a.rich_compare(&b, CompareOp::NotEqual).unwrap(), false);
}

#[test]
fn equality_ignores_separators() {
    let a = parse("+41 44 668 1800", None).unwrap();
    let b = parse("+41446681800", None).unwrap();
    assert_eq!(a.rich_compare(&b, CompareOp::Equal).unwrap(), true);
    assert_eq!(b.rich_compare(&a, CompareOp::Equal).unwrap(), true);
}

#[test]
fn equality_is_reflexive() {
    let a = swiss_number();
    assert_eq!(a.rich_compare(&a, CompareOp::Equal).unwrap(), true);
    assert_eq!(a.rich_compare(&a, CompareOp::NotEqual).unwrap(), false);
}

#[test]
fn inequality_of_different_numbers() {
    let a = swiss_number();
    let b = parse("+41446681801", None).unwrap();
    assert_eq!(a.rich_compare(&b, CompareOp::Equal).unwrap(), false);
    assert_eq!(a.rich_compare(&b, CompareOp::NotEqual).unwrap(), true);
}

#[test]
fn ordering_operators_are_unsupported() {
    let a = swiss_number();
    let b = swiss_number();
    let cases = [
        (CompareOp::LessThan, "<"),
        (CompareOp::GreaterThan, ">"),
        (CompareOp::LessOrEqual, "<="),
        (CompareOp::GreaterOrEqual, ">="),
    ];
    for (op, sym) in cases {
        let err = a.rich_compare(&b, op).unwrap_err();
        assert_eq!(
            err.message,
            format!(
                "'{}' not supported between instances of 'PhoneNumber' and 'PhoneNumber'",
                sym
            )
        );
    }
}

#[test]
fn summary_string_plain() {
    let n = swiss_number();
    assert_eq!(
        n.summary_string(),
        "Country Code: 41 National Number: 446681800"
    );
}

#[test]
fn repr_string_plain() {
    let n = swiss_number();
    assert_eq!(
        n.repr_string(),
        "PhoneNumber(country_code=41, national_number=446681800)"
    );
}

#[test]
fn extension_is_kept_and_rendered() {
    let n = parse("+41 44 668 1800 x123", None).unwrap();
    assert_eq!(n.extension().unwrap(), "123");
    assert_eq!(
        n.summary_string(),
        "Country Code: 41 National Number: 446681800 Extension: 123"
    );
    assert_eq!(
        n.repr_string(),
        "PhoneNumber(country_code=41, national_number=446681800, extension='123')"
    );
}

#[test]
fn carrier_is_kept_and_rendered() {
    let n = parse("012 3121286979", Some("BR")).unwrap();
    assert_eq!(n.country_code(), 55);
    assert_eq!(n.national_number(), 3121286979);
    assert_eq!(n.carrier().unwrap(), "12");
    assert_eq!(
        n.summary_string(),
        "Country Code: 55 National Number: 3121286979 Carrier: 12"
    );
    assert_eq!(
        n.repr_string(),
        "PhoneNumber(country_code=55, national_number=3121286979, carrier='12')"
    );
}

#[test]
fn invalid_pattern_number_is_not_valid() {
    // parseable, but one digit too long for a Swiss number
    let n = parse("+414466818009", None).unwrap();
    assert!(!is_valid_number(&n));
}

#[test]
fn single_digit_country_code() {
    let n = parse("+1 202 555 0123", None).unwrap();
    assert_eq!(n.country_code(), 1);
    assert_eq!(n.national_number(), 2025550123);
    assert_eq!(
        n.summary_string(),
        "Country Code: 1 National Number: 2025550123"
    );
}
