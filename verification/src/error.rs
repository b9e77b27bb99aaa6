//! What can go wrong inside the library.

use crate::text::{numeral, push_numeral};
use vstd::prelude::*;
use vstd::string::*;

verus! {

/// `cheap_alerts::Error`, of which nothing is looked into.
#[verifier::external_type_specification]
#[verifier::external_body]
pub struct ExAlertError(cheap_alerts::Error);

/// Why a text is no phone number.
#[derive(Clone, Copy, Debug, PartialEq, Eq, Structural)]
pub enum ParseError {
    /// The text has fewer than ten characters.
    TooShort { found: usize },
    /// A separator follows the area code, and fewer than eleven characters
    /// are there in all.
    ShortAfterAreaCode,
    /// A separator follows the prefix, and fewer than twelve characters are
    /// there in all.
    ShortAfterPrefix,
}

impl ParseError {
    /// The text of the error.
    pub open spec fn message_text(self) -> Seq<char> {
        match self {
            ParseError::TooShort { found } => {
                "Phone numbers must be at least 10 digits found "@ + numeral(found as nat, 10)
            },
            ParseError::ShortAfterAreaCode => "Phone number not long enough after area code"@,
            ParseError::ShortAfterPrefix => "Phone number not long enough after prefix"@,
        }
    }

    /// The text of the error.
    pub fn message(&self) -> (text: String)
        ensures
            text@ == self.message_text(),
    {
        match self {
            ParseError::TooShort { found } => {
                let mut text = String::from_str("Phone numbers must be at least 10 digits found ");
                push_numeral(&mut text, *found, 10);
                text
            },
            ParseError::ShortAfterAreaCode => {
                String::from_str("Phone number not long enough after area code")
            },
            ParseError::ShortAfterPrefix => {
                String::from_str("Phone number not long enough after prefix")
            },
        }
    }
}

/// An error of the library.
#[derive(Debug)]
pub enum Failure {
    /// A text that should be a phone number is none.
    Parse(ParseError),
    /// The alerts library refused a carrier or a destination.
    Cheap(cheap_alerts::Error),
}

impl From<ParseError> for Failure {
    fn from(why: ParseError) -> (failure: Failure) {
        Failure::Parse(why)
    }
}

impl vstd::std_specs::convert::FromSpecImpl<ParseError> for Failure {
    open spec fn obeys_from_spec() -> bool {
        true
    }

    open spec fn from_spec(why: ParseError) -> Failure {
        Failure::Parse(why)
    }
}

impl From<cheap_alerts::Error> for Failure {
    fn from(error: cheap_alerts::Error) -> (failure: Failure) {
        Failure::Cheap(error)
    }
}

impl vstd::std_specs::convert::FromSpecImpl<cheap_alerts::Error> for Failure {
    open spec fn obeys_from_spec() -> bool {
        true
    }

    open spec fn from_spec(error: cheap_alerts::Error) -> Failure {
        Failure::Cheap(error)
    }
}

/// Renders an error of the alerts library with its `Display` impl. Nothing is
/// claimed of the text.
#[verifier::external_body]
fn alert_error_text(error: &cheap_alerts::Error) -> String {
    format!("{}", error)
}

impl Failure {
    /// The text of the error.
    pub fn message(&self) -> (text: String)
        ensures
            self matches Failure::Parse(e) ==> text@ == e.message_text(),
    {
        match self {
            Failure::Parse(e) => e.message(),
            Failure::Cheap(e) => alert_error_text(e),
        }
    }
}

} // verus!
