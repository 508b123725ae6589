//! The parse facade: region resolution, the parse entry point, and the
//! error taxonomy that wraps engine failures into a single kind.

use crate::engine;
use crate::phone_number::format_spec;
use crate::phone_number::PyPhoneNumber;
use crate::text;
use vstd::prelude::*;
use vstd::string::StringExecFns;
use vstd::string::StrSliceExecFns;
use vstd::utf8::is_ascii_chars;

verus! {

/// The single user-facing parse-error kind: an unrecognized region code, or
/// the numbering engine's own rejection of the number text.
#[derive(Clone, Debug)]
pub enum NumberParseException {
    /// The supplied region text is not a recognized region code.
    InvalidRegion,
    /// The engine found the text not to be a viable phone number; carries
    /// the engine's diagnostic verbatim.
    Engine(String),
}

impl NumberParseException {
    /// The diagnostic message: a fixed literal for region failures, the
    /// engine's text otherwise.
    pub open spec fn spec_message(&self) -> Seq<char> {
        match self {
            NumberParseException::InvalidRegion => "invalid region"@,
            NumberParseException::Engine(m) => m@,
        }
    }

    /// The human-readable diagnostic carried by this error.
    pub fn message(&self) -> (r: String)
        ensures
            r@ == self.spec_message(),
    {
        match self {
            NumberParseException::InvalidRegion => String::from_str("invalid region"),
            NumberParseException::Engine(m) => m.clone(),
        }
    }
}

/// The upper-case normalization applied to region text before lookup:
/// character-wise ASCII upper-casing for ASCII text, std's Unicode
/// upper-casing otherwise.
pub open spec fn normalized(s: Seq<char>) -> Seq<char> {
    if is_ascii_chars(s) {
        text::ascii_upper(s)
    } else {
        text::upper_of(s)
    }
}

/// What region resolution yields: the engine's region identifier for the
/// upper-case-normalized text, if it is a known region code.
pub open spec fn resolve_spec(s: Seq<char>) -> Option<phonenumber::country::Id> {
    engine::region_of(normalized(s))
}

/// Upper-case normalization is idempotent on ASCII text.
pub proof fn lemma_normalized_idempotent(s: Seq<char>)
    requires
        is_ascii_chars(s),
    ensures
        normalized(normalized(s)) == normalized(s),
{
    text::lemma_ascii_upper_is_ascii(s);
    text::lemma_ascii_upper_idempotent(s);
}

/// Maps a two-letter textual country code, in either case, to the canonical
/// region identifier the engine accepts; unrecognized codes fail with
/// `InvalidRegion`. Resolution of a code it accepted succeeds again on the
/// normalized text, with the same identifier.
pub fn resolve(region: &str) -> (r: Result<phonenumber::country::Id, NumberParseException>)
    ensures
        resolve_spec(region@) matches Some(id) ==> r == Ok::<_, NumberParseException>(id),
        resolve_spec(region@) is None ==> r == Err::<phonenumber::country::Id, _>(
            NumberParseException::InvalidRegion,
        ),
        r matches Ok(id) ==> resolve_spec(normalized(region@)) == Some(id),
{
    let upper: String = if region.is_ascii() {
        text::ascii_upper_string(region)
    } else {
        text::to_upper(region)
    };
    proof {
        assert(upper@ == normalized(region@));
    }
    match engine::region_id_of(upper.as_str()) {
        Some(id) => {
            proof {
                text::lemma_ascii_upper_fixed(upper@);
            }
            Ok(id)
        },
        None => Err(NumberParseException::InvalidRegion),
    }
}

/// On ASCII text, resolving the normalized spelling gives the same outcome
/// as resolving the text itself.
pub proof fn lemma_resolve_spec_idempotent(s: Seq<char>)
    requires
        is_ascii_chars(s),
    ensures
        resolve_spec(normalized(s)) == resolve_spec(s),
{
    lemma_normalized_idempotent(s);
}

/// The region identifier a parse request asks for: `Some(hint)` when the
/// request can go to the engine (no region given, or a recognized one), and
/// `None` when the region text is unrecognized.
pub open spec fn requested_region(region: Option<&str>) -> Option<
    Option<phonenumber::country::Id>,
> {
    match region {
        Some(s) => match resolve_spec(s@) {
            Some(id) => Some(Some(id)),
            None => None,
        },
        None => Some(None),
    }
}

/// Parses a string into a phone number.
///
/// `number` may contain formatting such as '+', '(' and '-', an extension,
/// or be in RFC3966 format. `region` is the region the number is expected
/// to be from; it is only consulted when the number is not written in
/// international format, and may be absent when the number is guaranteed to
/// start with '+' and the country calling code.
///
/// An unrecognized region fails with `InvalidRegion` before any engine
/// call; text the engine finds non-viable (too few or too many digits, or
/// no region context and no leading '+') fails with the engine's diagnostic.
pub fn parse(number: &str, region: Option<&str>) -> (r: Result<
    PyPhoneNumber,
    NumberParseException,
>)
    ensures
        requested_region(region) is None ==> r == Err::<PyPhoneNumber, _>(
            NumberParseException::InvalidRegion,
        ),
        requested_region(region) matches Some(rid) ==> match engine::engine_parse(rid, number@) {
            Ok(n) => r matches Ok(p) && p.engine_value() == n,
            Err(e) => r matches Err(err) && err matches NumberParseException::Engine(m) && m@
                == engine::error_text(e),
        },
{
    let region_id: Option<phonenumber::country::Id> = match region {
        Some(reg) => match resolve(reg) {
            Ok(id) => Some(id),
            Err(e) => {
                return Err(e);
            },
        },
        None => None,
    };
    match engine::parse_call(region_id, number) {
        Ok(n) => Ok(PyPhoneNumber::new(n)),
        Err(e) => {
            let msg = engine::parse_error_message(&e);
            Err(NumberParseException::Engine(msg))
        },
    }
}

/// Parsing is deterministic: equal input text and equal region hint yield
/// equal engine representations, hence equal phone numbers.
pub proof fn lemma_parse_deterministic(
    rid: Option<phonenumber::country::Id>,
    text: Seq<char>,
    a: PyPhoneNumber,
    b: PyPhoneNumber,
)
    requires
        engine::engine_parse(rid, text) == Ok::<_, phonenumber::ParseError>(a.engine_value()),
        engine::engine_parse(rid, text) == Ok::<_, phonenumber::ParseError>(b.engine_value()),
    ensures
        crate::phone_number::phone_equal(a, b),
{
}

/// Tests whether a phone number matches a valid pattern. This only checks
/// the parsed, canonicalised number against the engine's patterns, not
/// whether the number is in use; it is total and never fails.
pub fn is_valid_number(numobj: &PyPhoneNumber) -> (r: bool)
    ensures
        r == engine::engine_is_valid(numobj.engine_value()),
{
    numobj.is_valid()
}

/// Formats a phone number in the specified format. An unrecognized format
/// name degrades to the engine's default rendering; this never fails.
pub fn format_number(numobj: &PyPhoneNumber, num_format: &str) -> (r: String)
    ensures
        r@ == format_spec(numobj.engine_value(), num_format@),
{
    numobj.format(num_format)
}

} // verus!
