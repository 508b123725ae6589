//! The trusted boundary to the external numbering engine (the `phonenumber`
//! crate). Every item here is believed rather than proved: each contract
//! states only what the engine's source shows. The engine's metadata
//! database is compiled into it, so every operation below is a function of
//! its arguments alone.

use crate::phone_number::PyPhoneNumberFormat;
use vstd::prelude::*;

verus! {

#[verifier::external_type_specification]
#[verifier::external_body]
pub struct ExPhoneNumber(phonenumber::PhoneNumber);

#[verifier::external_type_specification]
#[verifier::external_body]
pub struct ExCountryId(phonenumber::country::Id);

#[verifier::external_type_specification]
#[verifier::external_body]
pub struct ExParseError(phonenumber::ParseError);

/// The region identifier the engine's region parser yields for a text, if
/// any.
pub uninterp spec fn region_of(s: Seq<char>) -> Option<phonenumber::country::Id>;

/// What the engine's parser yields for a region hint and a number text.
pub uninterp spec fn engine_parse(
    region: Option<phonenumber::country::Id>,
    text: Seq<char>,
) -> Result<phonenumber::PhoneNumber, phonenumber::ParseError>;

/// The diagnostic text of an engine parse error.
pub uninterp spec fn error_text(e: phonenumber::ParseError) -> Seq<char>;

/// The country calling code of an engine number.
pub uninterp spec fn cc_of(n: phonenumber::PhoneNumber) -> u16;

/// The national significant number of an engine number.
pub uninterp spec fn national_of(n: phonenumber::PhoneNumber) -> u64;

/// The extension text of an engine number, if any.
pub uninterp spec fn extension_of(n: phonenumber::PhoneNumber) -> Option<Seq<char>>;

/// The carrier selection code text of an engine number, if any.
pub uninterp spec fn carrier_of(n: phonenumber::PhoneNumber) -> Option<Seq<char>>;

/// The engine's rendering of a number in a given format mode.
pub uninterp spec fn engine_format(n: phonenumber::PhoneNumber, mode: PyPhoneNumberFormat) -> Seq<
    char,
>;

/// The engine's validity verdict for a number.
pub uninterp spec fn engine_is_valid(n: phonenumber::PhoneNumber) -> bool;

/// Whether the engine's metadata database knows the number's country
/// calling code; the formatter only works on such numbers.
pub uninterp spec fn engine_known_code(n: phonenumber::PhoneNumber) -> bool;

/// Relies on `country::Id`'s `FromStr`, derived by strum's `EnumString`: it
/// matches the enum's variant names exactly, each of which is two
/// upper-case ASCII letters, and fails on every other text.
#[verifier::external_body]
pub(crate) fn region_id_of(s: &str) -> (r: Option<phonenumber::country::Id>)
    ensures
        r == region_of(s@),
        r is Some ==> s@.len() == 2 && (forall|i: int|
            0 <= i < s@.len() ==> 'A' <= #[trigger] s@[i] && s@[i] <= 'Z'),
{
    s.parse::<phonenumber::country::Id>().ok()
}

/// Relies on `phonenumber::parse`: deterministic in its two arguments, and
/// a number it returns has a country code the metadata database knows (the
/// parser rejects the others with `InvalidCountryCode`).
#[verifier::external_body]
pub(crate) fn parse_call(region: Option<phonenumber::country::Id>, text: &str) -> (r: Result<
    phonenumber::PhoneNumber,
    phonenumber::ParseError,
>)
    ensures
        r == engine_parse(region, text@),
        r matches Ok(n) ==> engine_known_code(n),
{
    phonenumber::parse(region, text)
}

/// Relies on the `Display` of `phonenumber::ParseError` (via thiserror): a
/// fixed diagnostic per variant, depending on the error value alone.
#[verifier::external_body]
pub(crate) fn parse_error_message(e: &phonenumber::ParseError) -> (r: String)
    ensures
        r@ == error_text(*e),
{
    format!("{}", e)
}

/// Relies on `PhoneNumber::code` and `country::Code::value`: the country
/// calling code as a plain integer.
#[verifier::external_body]
pub(crate) fn code_value(n: &phonenumber::PhoneNumber) -> (r: u16)
    ensures
        r == cc_of(*n),
{
    n.code().value()
}

/// Relies on `PhoneNumber::national` and `NationalNumber::value`: the
/// national significant number as a plain integer.
#[verifier::external_body]
pub(crate) fn national_value(n: &phonenumber::PhoneNumber) -> (r: u64)
    ensures
        r == national_of(*n),
{
    n.national().value()
}

/// Relies on `PhoneNumber::extension` and `Extension`'s `Display`, which
/// writes the extension's inner string.
#[verifier::external_body]
pub(crate) fn extension_string(n: &phonenumber::PhoneNumber) -> (r: Option<String>)
    ensures
        match r {
            Some(s) => extension_of(*n) == Some(s@),
            None => extension_of(*n) is None,
        },
{
    match n.extension() {
        Some(e) => Some(e.to_string()),
        None => None,
    }
}

/// Relies on `PhoneNumber::carrier` and `Carrier`'s `Display`, which writes
/// the carrier's inner string.
#[verifier::external_body]
pub(crate) fn carrier_string(n: &phonenumber::PhoneNumber) -> (r: Option<String>)
    ensures
        match r {
            Some(s) => carrier_of(*n) == Some(s@),
            None => carrier_of(*n) is None,
        },
{
    match n.carrier() {
        Some(c) => Some(c.to_string()),
        None => None,
    }
}

/// Relies on the engine's `Formatter` (`format(n).mode(m).to_string()`):
/// deterministic in the number and the mode. Its `Display` fails only when
/// the metadata database does not know the number's country code, so that
/// case is excluded by `requires`; `Display` of `PhoneNumber` itself defers
/// to this formatter with the E164 mode.
#[verifier::external_body]
pub(crate) fn format_mode(n: &phonenumber::PhoneNumber, mode: PyPhoneNumberFormat) -> (r: String)
    requires
        engine_known_code(*n),
    ensures
        r@ == engine_format(*n, mode),
{
    let m = match mode {
        PyPhoneNumberFormat::E164 => phonenumber::Mode::E164,
        PyPhoneNumberFormat::International => phonenumber::Mode::International,
        PyPhoneNumberFormat::National => phonenumber::Mode::National,
        PyPhoneNumberFormat::Rfc3966 => phonenumber::Mode::Rfc3966,
    };
    phonenumber::format(n).mode(m).to_string()
}

/// Relies on `phonenumber::is_valid`: a total predicate on the number.
#[verifier::external_body]
pub(crate) fn is_valid_call(n: &phonenumber::PhoneNumber) -> (r: bool)
    ensures
        r == engine_is_valid(*n),
{
    phonenumber::is_valid(n)
}

/// Relies on the derived `PartialEq` of `phonenumber::PhoneNumber`:
/// structural equality of country code (value and source), national number,
/// extension and carrier.
pub assume_specification[ <phonenumber::PhoneNumber as PartialEq>::eq ](
    a: &phonenumber::PhoneNumber,
    b: &phonenumber::PhoneNumber,
) -> (r: bool)
    ensures
        r == (*a == *b),
;

} // verus!
