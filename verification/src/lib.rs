//! A small facade over an external phone-number engine: parse raw text into
//! an immutable phone-number value, validate it, format it in one of four
//! fixed international notations, and compare values for equality.

pub mod engine;
pub mod phone_number;
pub mod text;
pub mod utils;

pub use utils::NumberParseException;
pub use utils::format_number;
pub use utils::is_valid_number;
pub use utils::parse;
pub use utils::resolve;

pub use phone_number::CompareOp;
pub use phone_number::PyPhoneNumber;
pub use phone_number::PyPhoneNumberFormat;
pub use phone_number::UnsupportedOperation;
