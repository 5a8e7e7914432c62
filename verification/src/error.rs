//! The failure taxonomy.
//!
//! Every component surfaces failures to its caller immediately; the two
//! user-intent terminations (`UserDeclined`, `InfoOnly`) carry empty messages
//! so the outermost layer can tell them from genuine errors.

use vstd::prelude::*;
use vstd::string::StringExecFns;
use crate::json::Json;

verus! {

/// Everything that can go wrong between issuing a request and launching the
/// player, plus the two user-intent terminations.
#[derive(Debug, PartialEq)]
pub enum Failure {
    /// The HTTP layer could not complete the request; carries the cause.
    TransportFailure(String),
    /// The API answered 401.
    Unauthorized,
    /// The API answered 404 with an error envelope naming a channel.
    UnknownChannel(String),
    /// Any other client error; carries the request URL and the status code.
    RequestRejected { url: String, status: u16 },
    /// A success status whose body was not valid JSON.
    ResponseDecodeFailure,
    /// An entity missing a required field; carries the offending fragment.
    MalformedEntity(Json),
    /// The payload's entity array was empty.
    NoResults,
    /// A name search matched nothing; carries the searched name.
    NotFound(String),
    /// The user answered the confirmation prompt with a no.
    UserDeclined,
    /// Info-only mode rendered the table and stopped; not an error.
    InfoOnly,
    /// Standard input ended or could not be read.
    ReadFailure,
    /// Input that was required to be numeric was not.
    ParseFailure,
    /// The external playback helper could not be spawned; carries the cause.
    PlayerLaunchFailed(String),
}

/// The message that [`Failure::message`] renders for each variant.
pub open spec fn spec_message(f: Failure) -> Seq<char> {
    match f {
        Failure::TransportFailure(c) => "Could not connect to the API: "@ + c@,
        Failure::Unauthorized => "Looks like no authorization string was supplied or it doesn't have required scope."@,
        Failure::UnknownChannel(n) => "Channel "@ + n@ + " does not exist"@,
        Failure::RequestRejected { url, status } => "Bad request. Url: "@ + url@ + ", Status: "@
            + crate::digits::dec_chars(status as nat),
        Failure::ResponseDecodeFailure => "Response body was not valid JSON"@,
        Failure::MalformedEntity(_) => "Malformed entity in response"@,
        Failure::NoResults => "No results"@,
        Failure::NotFound(n) => "No streams for "@ + n@,
        Failure::UserDeclined => ""@,
        Failure::InfoOnly => ""@,
        Failure::ReadFailure => "Reading input failed."@,
        Failure::ParseFailure => "Not a number"@,
        Failure::PlayerLaunchFailed(c) => "The playback helper failed to execute: "@ + c@,
    }
}

impl Failure {
    /// Whether this is a user-intent termination rather than a genuine error.
    pub fn is_user_intent(&self) -> (r: bool)
        ensures
            r == (*self is UserDeclined || *self is InfoOnly),
    {
        match self {
            Failure::UserDeclined => true,
            Failure::InfoOnly => true,
            _ => false,
        }
    }

    /// Renders the user-facing message, exactly as [`spec_message`] says.
    pub fn message(&self) -> (r: String)
        ensures
            r@ == spec_message(*self),
    {
        match self {
            Failure::TransportFailure(c) => {
                let mut s = String::from_str("Could not connect to the API: ");
                s.append(c.as_str());
                s
            },
            Failure::Unauthorized => String::from_str(
                "Looks like no authorization string was supplied or it doesn't have required scope.",
            ),
            Failure::UnknownChannel(n) => {
                let mut s = String::from_str("Channel ");
                s.append(n.as_str());
                s.append(" does not exist");
                s
            },
            Failure::RequestRejected { url, status } => {
                let mut s = String::from_str("Bad request. Url: ");
                s.append(url.as_str());
                s.append(", Status: ");
                let d = crate::digits::u64_to_string(*status as u64);
                s.append(d.as_str());
                s
            },
            Failure::ResponseDecodeFailure => String::from_str("Response body was not valid JSON"),
            Failure::MalformedEntity(_) => String::from_str("Malformed entity in response"),
            Failure::NoResults => String::from_str("No results"),
            Failure::NotFound(n) => {
                let mut s = String::from_str("No streams for ");
                s.append(n.as_str());
                s
            },
            Failure::UserDeclined => String::from_str(""),
            Failure::InfoOnly => String::from_str(""),
            Failure::ReadFailure => String::from_str("Reading input failed."),
            Failure::ParseFailure => String::from_str("Not a number"),
            Failure::PlayerLaunchFailed(c) => {
                let mut s = String::from_str("The playback helper failed to execute: ");
                s.append(c.as_str());
                s
            },
        }
    }
}

} // verus!
