//! The error that the bridge reports.

use vstd::prelude::*;
use vstd::string::*;
use vstd::std_specs::convert::FromSpecImpl;
use crate::address;

verus! {

/// An error with its message.
#[derive(Debug)]
pub struct Error {
    message: String,
}

impl View for Error {
    type V = Seq<char>;

    /// The message.
    closed spec fn view(&self) -> Seq<char> {
        self.message@
    }
}

impl Error {
    /// An error with the given message.
    pub fn new(message: String) -> (error: Error)
        ensures
            error@ == message@,
    {
        Error { message }
    }

    /// The message.
    pub fn message(&self) -> (message: &str)
        ensures
            message@ == self@,
    {
        self.message.as_str()
    }

    /// The message, as the error prints.
    pub fn to_string(&self) -> (message: String)
        ensures
            message@ == self@,
    {
        self.message.clone()
    }
}

impl Clone for Error {
    fn clone(&self) -> (copy: Error)
        ensures
            copy == *self,
    {
        Error { message: self.message.clone() }
    }
}

/// The message of the error made from a URL parse error.
pub open spec fn parse_error_message(error: url::ParseError) -> Seq<char> {
    "Parse error: "@ + address::error_text(error)
}

impl FromSpecImpl<url::ParseError> for Error {
    open spec fn obeys_from_spec() -> bool {
        false
    }

    open spec fn from_spec(value: url::ParseError) -> Error {
        arbitrary()
    }
}

impl From<url::ParseError> for Error {
    fn from(value: url::ParseError) -> (error: Error)
        ensures
            error@ == parse_error_message(value),
    {
        let mut message = String::from_str("Parse error: ");
        let description = address::describe(&value);
        message.append(description.as_str());
        Error::new(message)
    }
}

/// The message of the error that reports a failure of the Home Assistant
/// client.
pub open spec fn home_assistant_message(description: Seq<char>) -> Seq<char> {
    "Home Assistant: "@ + description
}

impl Error {
    /// The error that reports a failure of the Home Assistant client, from
    /// the client's description of it.
    pub fn home_assistant(description: &str) -> (error: Error)
        ensures
            error@ == home_assistant_message(description@),
    {
        let mut message = String::from_str("Home Assistant: ");
        message.append(description);
        Error::new(message)
    }
}

} // verus!
