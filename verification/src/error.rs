//! What can go wrong, and what is said of it.

use vstd::prelude::*;
use vstd::string::StringExecFns;

verus! {

/// The failures of the booking engine.
#[derive(Clone, Copy, Debug, PartialEq, Eq, Structural)]
pub enum Error {
    /// The login or the password is not configured.
    MissingCredentials,
    /// The clock gave a day that the calendar does not have, or the day
    /// fifteen days later cannot be written.
    InvalidDate,
    /// The site did not accept the login.
    AuthenticationError,
    /// A request could not be carried out.
    TransportError,
    /// A page of the site did not have the shape it is known by.
    ParseError,
    /// No free cell shows the wanted time.
    NoCandidateOffer,
    /// Something happened that the engine was not waiting for.
    UnexpectedEvent,
}

impl Error {
    /// Whether the run ends on this failure.
    pub open spec fn spec_is_fatal(&self) -> bool {
        *self != Error::NoCandidateOffer
    }

    /// Whether the run ends on this failure: all but a day without a
    /// matching cell do.
    #[verifier::when_used_as_spec(spec_is_fatal)]
    pub fn is_fatal(&self) -> (fatal: bool)
        ensures
            fatal == self.spec_is_fatal(),
    {
        match self {
            Error::NoCandidateOffer => false,
            _ => true,
        }
    }

    /// The text of a failure's message.
    pub open spec fn message_text(&self) -> Seq<char> {
        match self {
            Error::MissingCredentials =>
                "environment variable wanaplay_login and wanaplay_password should be set"@,
            Error::InvalidDate => "not a day of the calendar"@,
            Error::AuthenticationError => "unable to login"@,
            Error::TransportError => "request failed"@,
            Error::ParseError => "unexpected page"@,
            Error::NoCandidateOffer => "no free court at that time"@,
            Error::UnexpectedEvent => "unexpected event"@,
        }
    }

    /// A failure's message.
    pub fn message(&self) -> (text: String)
        ensures
            text@ == self.message_text(),
    {
        match self {
            Error::MissingCredentials => String::from_str(
                "environment variable wanaplay_login and wanaplay_password should be set",
            ),
            Error::InvalidDate => String::from_str("not a day of the calendar"),
            Error::AuthenticationError => String::from_str("unable to login"),
            Error::TransportError => String::from_str("request failed"),
            Error::ParseError => String::from_str("unexpected page"),
            Error::NoCandidateOffer => String::from_str("no free court at that time"),
            Error::UnexpectedEvent => String::from_str("unexpected event"),
        }
    }
}

} // verus!
