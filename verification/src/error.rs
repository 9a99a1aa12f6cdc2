//! What can end a run, and the message that is shown for it.

use vstd::prelude::*;
use vstd::string::*;
use crate::text::{decimal_digits, push_decimal};

verus! {

/// Every failure ends the run: none of them is retried.
#[derive(Debug, Clone, PartialEq, Eq)]
pub enum Error {
    /// The email or the password is known from no source.
    MissingCredentials,
    /// The account or the server name is known from no source.
    IncompleteTarget,
    /// The login was answered with this status, which is neither success nor
    /// a usable redirect.
    AuthenticationFailed(u16),
    /// The login was redirected more often than the caller allowed.
    TooManyRedirects,
    /// The instance listing was answered with this status instead of success.
    QueryFailed(u16),
    /// The instance listing is not a list of named instances with addresses.
    MalformedResponse,
    /// No instance with a public address matched.
    NoCandidates,
    /// The service could not be reached.
    NetworkError,
}

pub open spec fn missing_credentials_text() -> Seq<char> {
    "Email and password are both required to connect to the RightScale API. Either set the\nenvironment variables RSSSH_EMAIL and RSSSH_PASSWORD, or create a ~/.netrc file with an\nentry for 'rsssh', like so:\n    machine rsssh\n      login email@example.com\n      password MyPassword\n\nFor more information, see:\n  http://www.gnu.org/software/inetutils/manual/html_node/The-_002enetrc-file.html"@
}

/// The message for `error` in a run that searched for `pattern`.
pub open spec fn spec_message(error: Error, pattern: Seq<char>) -> Seq<char> {
    match error {
        Error::MissingCredentials => missing_credentials_text(),
        Error::IncompleteTarget =>
            "Account ID and server name are both required to connect to a host."@,
        Error::AuthenticationFailed(status) => "Failed to log in to the RightScale API: "@
            + decimal_digits(status as nat),
        Error::TooManyRedirects => "Too many redirects while logging in to the RightScale API"@,
        Error::QueryFailed(status) => "Unexpected response from RightScale API: "@
            + decimal_digits(status as nat),
        Error::MalformedResponse => "Error parsing JSON response from RightScale API"@,
        Error::NoCandidates => "No server with a public IP address matches "@ + pattern,
        Error::NetworkError => "Could not reach the RightScale API"@,
    }
}

impl Error {
    /// The message to show for this failure. `pattern` is the server name
    /// that the run searched for; it is named when nothing matched it.
    pub fn message(&self, pattern: &str) -> (r: String)
        ensures
            r@ == spec_message(*self, pattern@),
    {
        match self {
            Error::MissingCredentials => {
                "Email and password are both required to connect to the RightScale API. Either set the\nenvironment variables RSSSH_EMAIL and RSSSH_PASSWORD, or create a ~/.netrc file with an\nentry for 'rsssh', like so:\n    machine rsssh\n      login email@example.com\n      password MyPassword\n\nFor more information, see:\n  http://www.gnu.org/software/inetutils/manual/html_node/The-_002enetrc-file.html".to_owned()
            },
            Error::IncompleteTarget => {
                "Account ID and server name are both required to connect to a host.".to_owned()
            },
            Error::AuthenticationFailed(status) => {
                let mut out = "Failed to log in to the RightScale API: ".to_owned();
                push_decimal(&mut out, *status as u64);
                out
            },
            Error::TooManyRedirects => {
                "Too many redirects while logging in to the RightScale API".to_owned()
            },
            Error::QueryFailed(status) => {
                let mut out = "Unexpected response from RightScale API: ".to_owned();
                push_decimal(&mut out, *status as u64);
                out
            },
            Error::MalformedResponse => {
                "Error parsing JSON response from RightScale API".to_owned()
            },
            Error::NoCandidates => {
                let mut out = "No server with a public IP address matches ".to_owned();
                out.append(pattern);
                out
            },
            Error::NetworkError => "Could not reach the RightScale API".to_owned(),
        }
    }
}

} // verus!
