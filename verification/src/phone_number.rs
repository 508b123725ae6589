//! The format mode registry and the immutable phone-number value.

use crate::engine;
use crate::text;
use crate::text::dec_seq;
use vstd::prelude::*;
use vstd::string::StringExecFns;
use vstd::string::StrSliceExecFns;

verus! {

/// Phone number format.
///
/// INTERNATIONAL and NATIONAL formats are consistent with the definition in
/// ITU-T Recommendation E123, following local conventions such as using '-'
/// instead of whitespace as separators. E164 format is as per INTERNATIONAL
/// format but with no formatting applied, e.g. "+41446681800". RFC3966 is as
/// per INTERNATIONAL format, but with all separating symbols replaced with a
/// hyphen, any extension appended with ";ext=", and a prefix of "tel:".
#[derive(Clone, Copy, PartialEq, Eq, Structural, Debug)]
pub enum PyPhoneNumberFormat {
    E164,
    International,
    National,
    Rfc3966,
}

/// The format mode a textual name stands for: an exact, case-sensitive match
/// against the four reserved names; any other text has no mode.
pub open spec fn mode_of(name: Seq<char>) -> Option<PyPhoneNumberFormat> {
    if name == "E164"@ {
        Some(PyPhoneNumberFormat::E164)
    } else if name == "INTERNATIONAL"@ {
        Some(PyPhoneNumberFormat::International)
    } else if name == "NATIONAL"@ {
        Some(PyPhoneNumberFormat::National)
    } else if name == "RFC3966"@ {
        Some(PyPhoneNumberFormat::Rfc3966)
    } else {
        None
    }
}

/// The reserved format-mode name constants, exact and case-sensitive.
pub const E164: &'static str = "E164";

pub const INTERNATIONAL: &'static str = "INTERNATIONAL";

pub const NATIONAL: &'static str = "NATIONAL";

pub const RFC3966: &'static str = "RFC3966";

impl PyPhoneNumberFormat {
    /// Looks a textual name up among the four reserved format names; an
    /// unrecognized name yields no mode, which is not an error.
    pub fn get_mode(code: &str) -> (r: Option<PyPhoneNumberFormat>)
        ensures
            r == mode_of(code@),
    {
        if text::str_eq(code, "E164") {
            Some(PyPhoneNumberFormat::E164)
        } else if text::str_eq(code, "INTERNATIONAL") {
            Some(PyPhoneNumberFormat::International)
        } else if text::str_eq(code, "NATIONAL") {
            Some(PyPhoneNumberFormat::National)
        } else if text::str_eq(code, "RFC3966") {
            Some(PyPhoneNumberFormat::Rfc3966)
        } else {
            None
        }
    }
}

/// The name-to-mode mapping is total on the four reserved names and
/// injective: distinct recognized names never share a mode.
pub proof fn lemma_mode_lookup_total_injective()
    ensures
        mode_of("E164"@) == Some(PyPhoneNumberFormat::E164),
        mode_of("INTERNATIONAL"@) == Some(PyPhoneNumberFormat::International),
        mode_of("NATIONAL"@) == Some(PyPhoneNumberFormat::National),
        mode_of("RFC3966"@) == Some(PyPhoneNumberFormat::Rfc3966),
        forall|a: Seq<char>, b: Seq<char>|
            mode_of(a) is Some && mode_of(a) == mode_of(b) ==> a == b,
{
    reveal_strlit("E164");
    reveal_strlit("INTERNATIONAL");
    reveal_strlit("NATIONAL");
    reveal_strlit("RFC3966");
    assert("E164"@.len() == 4);
    assert("INTERNATIONAL"@.len() == 13);
    assert("NATIONAL"@.len() == 8);
    assert("RFC3966"@.len() == 7);
}

/// A rich-comparison operator, as a host embedding would select one.
#[derive(Clone, Copy, PartialEq, Eq, Structural, Debug)]
pub enum CompareOp {
    Equal,
    NotEqual,
    LessThan,
    GreaterThan,
    LessOrEqual,
    GreaterOrEqual,
}

/// The textual symbol of an ordering operator (empty for the two equality
/// operators, which never fail).
pub open spec fn op_symbol(op: CompareOp) -> Seq<char> {
    match op {
        CompareOp::LessThan => "<"@,
        CompareOp::GreaterThan => ">"@,
        CompareOp::LessOrEqual => "<="@,
        CompareOp::GreaterOrEqual => ">="@,
        _ => Seq::<char>::empty(),
    }
}

/// The diagnostic an ordering comparison fails with: it names the attempted
/// operator and the type.
pub open spec fn unsupported_msg(op: CompareOp) -> Seq<char> {
    "'"@ + op_symbol(op) + "' not supported between instances of 'PhoneNumber' and 'PhoneNumber'"@
}

/// The error for relational comparison of phone numbers: ordering is
/// deliberately undefined on them.
#[derive(Clone, Debug)]
pub struct UnsupportedOperation {
    pub message: String,
}

fn unsupported(op_text: &str) -> (r: UnsupportedOperation)
    ensures
        r.message@ == "'"@ + op_text@
            + "' not supported between instances of 'PhoneNumber' and 'PhoneNumber'"@,
{
    let mut m = String::from_str("'");
    m.append(op_text);
    m.append("' not supported between instances of 'PhoneNumber' and 'PhoneNumber'");
    UnsupportedOperation { message: m }
}

/// An immutable international phone number, created only from a successful
/// engine parse and never mutated afterwards.
#[derive(Debug)]
pub struct PyPhoneNumber {
    inner: phonenumber::PhoneNumber,
    country_code: u16,
    national_number: u64,
    extension: Option<String>,
    carrier: Option<String>,
}

/// What `format` returns: the engine's rendering in the recognized mode, or
/// the engine's default (E164) rendering when the name is not recognized.
pub open spec fn format_spec(n: phonenumber::PhoneNumber, name: Seq<char>) -> Seq<char> {
    match mode_of(name) {
        Some(mode) => engine::engine_format(n, mode),
        None => engine::engine_format(n, PyPhoneNumberFormat::E164),
    }
}

/// The human-readable summary rendering: "Country Code: <code> National
/// Number: <number>", appending " Extension: <ext>" and " Carrier: <carr>"
/// only when present, in that order.
pub open spec fn summary_spec(n: phonenumber::PhoneNumber) -> Seq<char> {
    "Country Code: "@ + dec_seq(engine::cc_of(n) as nat) + " National Number: "@ + dec_seq(
        engine::national_of(n) as nat,
    ) + (match engine::extension_of(n) {
        Some(e) => " Extension: "@ + e,
        None => Seq::<char>::empty(),
    }) + (match engine::carrier_of(n) {
        Some(c) => " Carrier: "@ + c,
        None => Seq::<char>::empty(),
    })
}

/// The constructor-style rendering: "PhoneNumber(country_code=<code>,
/// national_number=<number>[, extension='<ext>'][, carrier='<carr>'])", the
/// optional fields only when present, in that order.
pub open spec fn repr_spec(n: phonenumber::PhoneNumber) -> Seq<char> {
    "PhoneNumber(country_code="@ + dec_seq(engine::cc_of(n) as nat) + ", national_number="@
        + dec_seq(engine::national_of(n) as nat) + (match engine::extension_of(n) {
        Some(e) => ", extension='"@ + e + "'"@,
        None => Seq::<char>::empty(),
    }) + (match engine::carrier_of(n) {
        Some(c) => ", carrier='"@ + c + "'"@,
        None => Seq::<char>::empty(),
    }) + ")"@
}

impl PyPhoneNumber {
    #[verifier::type_invariant]
    closed spec fn wf(self) -> bool {
        &&& engine::engine_known_code(self.inner)
        &&& self.country_code == engine::cc_of(self.inner)
        &&& self.national_number == engine::national_of(self.inner)
        &&& match self.extension {
            Some(s) => engine::extension_of(self.inner) == Some(s@),
            None => engine::extension_of(self.inner) is None,
        }
        &&& match self.carrier {
            Some(s) => engine::carrier_of(self.inner) == Some(s@),
            None => engine::carrier_of(self.inner) is None,
        }
    }

    /// The engine-level value this number wraps: the full representation,
    /// the model all contracts speak of.
    pub closed spec fn engine_value(self) -> phonenumber::PhoneNumber {
        self.inner
    }

    /// Wraps an engine-parsed number. Only the parse facade creates values,
    /// so the number's country code is one the engine knows.
    pub fn new(phone_number: phonenumber::PhoneNumber) -> (r: PyPhoneNumber)
        requires
            engine::engine_known_code(phone_number),
        ensures
            r.engine_value() == phone_number,
    {
        let country_code = engine::code_value(&phone_number);
        let national_number = engine::national_value(&phone_number);
        let extension = engine::extension_string(&phone_number);
        let carrier = engine::carrier_string(&phone_number);
        PyPhoneNumber { inner: phone_number, country_code, national_number, extension, carrier }
    }

    /// The country calling code, e.g. 41.
    pub fn country_code(&self) -> (r: u16)
        ensures
            r == engine::cc_of(self.engine_value()),
    {
        proof {
            use_type_invariant(&*self);
        }
        self.country_code
    }

    /// The national significant number.
    pub fn national_number(&self) -> (r: u64)
        ensures
            r == engine::national_of(self.engine_value()),
    {
        proof {
            use_type_invariant(&*self);
        }
        self.national_number
    }

    /// The extension, when the parsed text carried one.
    pub fn extension(&self) -> (r: Option<&String>)
        ensures
            match r {
                Some(s) => engine::extension_of(self.engine_value()) == Some(s@),
                None => engine::extension_of(self.engine_value()) is None,
            },
    {
        proof {
            use_type_invariant(&*self);
        }
        self.extension.as_ref()
    }

    /// The carrier selection code, when the parsed text carried one.
    pub fn carrier(&self) -> (r: Option<&String>)
        ensures
            match r {
                Some(s) => engine::carrier_of(self.engine_value()) == Some(s@),
                None => engine::carrier_of(self.engine_value()) is None,
            },
    {
        proof {
            use_type_invariant(&*self);
        }
        self.carrier.as_ref()
    }

    /// Delegates to the engine's validity predicate; total, never fails.
    pub fn is_valid(&self) -> (r: bool)
        ensures
            r == engine::engine_is_valid(self.engine_value()),
    {
        engine::is_valid_call(&self.inner)
    }

    /// Formats the number per the named mode; an unrecognized name degrades
    /// to the engine's default rendering instead of failing.
    pub fn format(&self, num_format: &str) -> (r: String)
        ensures
            r@ == format_spec(self.engine_value(), num_format@),
    {
        proof {
            use_type_invariant(&*self);
        }
        match PyPhoneNumberFormat::get_mode(num_format) {
            None => engine::format_mode(&self.inner, PyPhoneNumberFormat::E164),
            Some(mode) => engine::format_mode(&self.inner, mode),
        }
    }

    /// The human-readable summary of the number.
    pub fn summary_string(&self) -> (r: String)
        ensures
            r@ == summary_spec(self.engine_value()),
    {
        proof {
            use_type_invariant(&*self);
        }
        let mut s = String::from_str("Country Code: ");
        let cc = text::u64_to_string(self.country_code as u64);
        s.append(cc.as_str());
        s.append(" National Number: ");
        let nn = text::u64_to_string(self.national_number);
        s.append(nn.as_str());
        match &self.extension {
            Some(e) => {
                s.append(" Extension: ");
                s.append(e.as_str());
            },
            None => {},
        }
        match &self.carrier {
            Some(c) => {
                s.append(" Carrier: ");
                s.append(c.as_str());
            },
            None => {},
        }
        proof {
            assert(s@ =~= summary_spec(self.engine_value()));
        }
        s
    }

    /// The constructor-style rendering of the number.
    pub fn repr_string(&self) -> (r: String)
        ensures
            r@ == repr_spec(self.engine_value()),
    {
        proof {
            use_type_invariant(&*self);
        }
        let mut s = String::from_str("PhoneNumber(country_code=");
        let cc = text::u64_to_string(self.country_code as u64);
        s.append(cc.as_str());
        s.append(", national_number=");
        let nn = text::u64_to_string(self.national_number);
        s.append(nn.as_str());
        match &self.extension {
            Some(e) => {
                s.append(", extension='");
                s.append(e.as_str());
                s.append("'");
            },
            None => {},
        }
        match &self.carrier {
            Some(c) => {
                s.append(", carrier='");
                s.append(c.as_str());
                s.append("'");
            },
            None => {},
        }
        s.append(")");
        proof {
            assert(s@ =~= repr_spec(self.engine_value()));
        }
        s
    }

    /// Rich comparison. Equality and inequality compare the full engine
    /// representations and never fail; the four ordering operators always
    /// fail with `UnsupportedOperation`, never with a boolean.
    pub fn rich_compare(&self, other: &PyPhoneNumber, op: CompareOp) -> (r: Result<
        bool,
        UnsupportedOperation,
    >)
        ensures
            op == CompareOp::Equal ==> r == Ok::<bool, UnsupportedOperation>(
                self.engine_value() == other.engine_value(),
            ),
            op == CompareOp::NotEqual ==> r == Ok::<bool, UnsupportedOperation>(
                self.engine_value() != other.engine_value(),
            ),
            (op == CompareOp::LessThan || op == CompareOp::GreaterThan || op
                == CompareOp::LessOrEqual || op == CompareOp::GreaterOrEqual) ==> (r matches Err(e)
                && e.message@ == unsupported_msg(op)),
    {
        match op {
            CompareOp::Equal => Ok(self.inner == other.inner),
            CompareOp::NotEqual => Ok(!(self.inner == other.inner)),
            CompareOp::LessThan => Err(unsupported("<")),
            CompareOp::GreaterThan => Err(unsupported(">")),
            CompareOp::LessOrEqual => Err(unsupported("<=")),
            CompareOp::GreaterOrEqual => Err(unsupported(">=")),
        }
    }
}

/// Two phone numbers are equal exactly when their engine representations
/// are.
pub open spec fn phone_equal(a: PyPhoneNumber, b: PyPhoneNumber) -> bool {
    a.engine_value() == b.engine_value()
}

/// Equality of phone numbers is reflexive.
pub proof fn lemma_equal_reflexive(a: PyPhoneNumber)
    ensures
        phone_equal(a, a),
{
}

/// Equality of phone numbers is symmetric.
pub proof fn lemma_equal_symmetric(a: PyPhoneNumber, b: PyPhoneNumber)
    ensures
        phone_equal(a, b) == phone_equal(b, a),
{
}

/// Equality of phone numbers is transitive.
pub proof fn lemma_equal_transitive(a: PyPhoneNumber, b: PyPhoneNumber, c: PyPhoneNumber)
    requires
        phone_equal(a, b),
        phone_equal(b, c),
    ensures
        phone_equal(a, c),
{
}

/// Formatting with an unrecognized mode name yields exactly the default
/// (unformatted) rendering.
pub proof fn lemma_format_fallback(n: phonenumber::PhoneNumber, name: Seq<char>)
    requires
        mode_of(name) is None,
    ensures
        format_spec(n, name) == engine::engine_format(n, PyPhoneNumberFormat::E164),
{
}

} // verus!
