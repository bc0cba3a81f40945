//! The one error value that every fallible operation of the toolkit returns.

use vstd::prelude::*;
use vstd::string::*;
use crate::text::{contains_nul, decimal, decimal_text, find_nul, first_nul_at};

verus! {

/// The failures that the toolkit itself reports.
#[derive(Clone, Copy, Debug, PartialEq, Eq, PartialOrd, Ord, Hash, Structural)]
pub enum FltkErrorKind {
    /// The event loop could not be entered.
    FailedToRun,
    /// The toolkit could not be made safe for use from several threads.
    FailedToLock,
    /// The named visual scheme is not one the toolkit knows.
    FailedToSetScheme,
    /// A named resource is absent.
    ResourceNotFound,
}

impl FltkErrorKind {
    /// The sentence that describes this failure.
    pub open spec fn text(self) -> Seq<char> {
        match self {
            FltkErrorKind::FailedToRun => "Failed to run FLTK!"@,
            FltkErrorKind::FailedToLock => "Failed to initialize app for multithreading!"@,
            FltkErrorKind::FailedToSetScheme => "Failed to set scheme"@,
            FltkErrorKind::ResourceNotFound => "Resource Not Found!"@,
        }
    }

    /// The variant's name, as `{:?}` prints it.
    pub open spec fn name_text(self) -> Seq<char> {
        match self {
            FltkErrorKind::FailedToRun => "FailedToRun"@,
            FltkErrorKind::FailedToLock => "FailedToLock"@,
            FltkErrorKind::FailedToSetScheme => "FailedToSetScheme"@,
            FltkErrorKind::ResourceNotFound => "ResourceNotFound"@,
        }
    }

    /// Describes the failure in one sentence.
    pub fn as_str(&self) -> (s: &str)
        ensures
            s@ == self.text(),
    {
        match *self {
            FltkErrorKind::FailedToRun => "Failed to run FLTK!",
            FltkErrorKind::FailedToLock => "Failed to initialize app for multithreading!",
            FltkErrorKind::FailedToSetScheme => "Failed to set scheme",
            FltkErrorKind::ResourceNotFound => "Resource Not Found!",
        }
    }

    /// The variant's name.
    pub fn name(&self) -> (s: &str)
        ensures
            s@ == self.name_text(),
    {
        match *self {
            FltkErrorKind::FailedToRun => "FailedToRun",
            FltkErrorKind::FailedToLock => "FailedToLock",
            FltkErrorKind::FailedToSetScheme => "FailedToSetScheme",
            FltkErrorKind::ResourceNotFound => "ResourceNotFound",
        }
    }
}

/// What can go wrong in the toolkit or on the way to it.
#[derive(Debug)]
pub enum FltkError {
    /// The host's input or output failed; the payload is the host's message.
    IoError(String),
    /// A string held an embedded terminator; the payload is the byte at which
    /// the first one stands.
    NullError(usize),
    /// The toolkit itself reported a failure.
    Internal(FltkErrorKind),
    /// A failure of no known kind, with a free-form message.
    Unknown(String),
}

/// The text that `{:?}` gives for a string: the string in double quotes, with
/// quotes, backslashes and unprintable characters escaped.
pub uninterp spec fn debug_text(s: Seq<char>) -> Seq<char>;

/// Calls `format!("{:?}", s)` of the standard library. The contract only names
/// the result: the same characters always give the same quoted text.
#[verifier::external_body]
fn debug_format(s: &str) -> (r: String)
    ensures
        r@ == debug_text(s@),
{
    format!("{:?}", s)
}

/// The message of an unknown failure whose free-form text, already quoted, is
/// `quoted`.
pub fn unknown_message(quoted: &str) -> (r: String)
    ensures
        r@ == "An unknown error occurred "@ + quoted@,
{
    let mut r = String::from_str("An unknown error occurred ");
    r.append(quoted);
    r
}

/// The message of the failure that an integer tag outside an enumeration
/// gives.
pub open spec fn is_unrecognized_tag(e: FltkError) -> bool {
    e matches FltkError::Unknown(m) && m@ == "Unrecognized tag"@
}

/// The failure reported for an integer tag that an enumeration does not have.
pub fn unrecognized_tag() -> (e: FltkError)
    ensures
        is_unrecognized_tag(e),
{
    FltkError::Unknown(String::from_str("Unrecognized tag"))
}

/// Tests whether `text` can be handed to the toolkit: a text with an embedded
/// terminator is an error that says where the first one stands.
pub fn check_text(text: &str) -> (r: Result<(), FltkError>)
    ensures
        r is Ok <==> !contains_nul(text@),
        r matches Err(e) ==> e matches FltkError::NullError(p) && first_nul_at(text@, p as int),
{
    match find_nul(text) {
        Some(p) => Err(FltkError::NullError(p)),
        None => Ok(()),
    }
}

impl FltkError {
    /// The short description of the failure.
    pub open spec fn description_text(self) -> Seq<char> {
        match self {
            FltkError::IoError(m) => m@,
            FltkError::NullError(_) => "nul byte found in data"@,
            FltkError::Internal(k) => k.text(),
            FltkError::Unknown(m) => m@,
        }
    }

    /// The full message of the failure.
    pub open spec fn display_text(self) -> Seq<char> {
        match self {
            FltkError::IoError(m) => m@,
            FltkError::NullError(p) => "nul byte found in provided data at position: "@
                + decimal_text(p as nat),
            FltkError::Internal(k) => "An internal error occured "@ + k.name_text(),
            FltkError::Unknown(m) => "An unknown error occurred "@ + debug_text(m@),
        }
    }

    /// Describes the failure in a few words.
    pub fn description(&self) -> (s: &str)
        ensures
            s@ == self.description_text(),
    {
        match self {
            FltkError::IoError(m) => m.as_str(),
            FltkError::NullError(_) => "nul byte found in data",
            FltkError::Internal(k) => k.as_str(),
            FltkError::Unknown(m) => m.as_str(),
        }
    }

    /// Renders the failure as the message shown to a person.
    pub fn to_string(&self) -> (s: String)
        ensures
            s@ == self.display_text(),
    {
        match self {
            FltkError::IoError(m) => m.clone(),
            FltkError::NullError(p) => {
                let mut s = String::from_str("nul byte found in provided data at position: ");
                let digits = decimal(*p);
                s.append(digits.as_str());
                s
            },
            FltkError::Internal(k) => {
                let mut s = String::from_str("An internal error occured ");
                s.append(k.name());
                s
            },
            FltkError::Unknown(m) => {
                let quoted = debug_format(m.as_str());
                unknown_message(quoted.as_str())
            },
        }
    }
}

} // verus!
