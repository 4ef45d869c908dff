//! The errors of the SDK client.

use vstd::prelude::*;

verus! {

/// Everything that can go wrong while talking to the Agones SDK sidecar or
/// while reading what it sends.
#[derive(Debug)]
pub enum Error {
    /// The stream of health pings could not be kept open.
    HealthPingConnectionFailure(String),
    /// The connection was not made within the allowed time.
    TimedOut(tokio::time::error::Elapsed),
    /// The address of the SDK server is not a valid URI.
    InvalidUri(http::uri::InvalidUri),
    /// A remote call failed; the text is the description of the status that
    /// the call ended with.
    Rpc(String),
    /// The underlying connection failed; the text is the transport's own
    /// description of the failure.
    Transport(String),
    /// An integer, such as the port in `AGONES_SDK_GRPC_PORT`, failed to parse.
    ParseInteger(std::num::ParseIntError),
    /// The game server reported a state that this client does not know.
    UnknownState(String),
    /// The game server reported an address that is not an IP address; `err`
    /// describes why the address was refused.
    InvalidIp { ip_str: String, err: String },
    /// A date or time component was out of range.
    InvalidComponentRange(time::error::ComponentRange),
}

/// The result of the SDK's operations.
pub type Result<T> = std::result::Result<T, Error>;

/// The text of a message built from a fixed prefix, a part that varies and a
/// fixed suffix.
pub open spec fn framed(prefix: &str, inner: Seq<char>, suffix: &str) -> Seq<char> {
    prefix@ + inner + suffix@
}

/// Whether `text` is what the formatter of `T` writes for `value`.
pub open spec fn displays_as<T: core::fmt::Display>(value: &T, text: Seq<char>) -> bool {
    exists|s: String| s@ == text && vstd::string::to_string_from_display_ensures::<T>(value, s)
}

impl Error {
    /// Whether `text` is the message of this error: each kind of error has a
    /// fixed wording around its detail, and the detail of an error of another
    /// crate is what that crate's formatter writes for it.
    pub open spec fn is_message(&self, text: Seq<char>) -> bool {
        match self {
            Error::HealthPingConnectionFailure(inner) =>
                text == framed("health ping connection failure: `", inner@, "`"),
            Error::TimedOut(elapsed) => displays_as(elapsed, text),
            Error::InvalidUri(invalid) => exists|d: Seq<char>| displays_as(invalid, d)
                && text == framed("failed to parse connection uri: `", d, "`"),
            Error::Rpc(status) => text == framed("rpc failure: `", status@, "`"),
            Error::Transport(transport) =>
                text == framed("transport failure: `", transport@, "`"),
            Error::ParseInteger(parse) => exists|d: Seq<char>| displays_as(parse, d)
                && text == framed("failed to parse integer: `", d, "`"),
            Error::UnknownState(us) =>
                text == framed("received an unknown state '", us@, "' from agones"),
            Error::InvalidIp { ip_str, err } =>
                text == framed("failed to parse ip '", ip_str@, "': ") + err@,
            Error::InvalidComponentRange(cr) => exists|d: Seq<char>| displays_as(cr, d)
                && text == framed("invalid component range: ", d, ""),
        }
    }

    /// The human readable description of the error.
    pub fn message(&self) -> (text: String)
        ensures
            self.is_message(text@),
    {
        match self {
            Error::HealthPingConnectionFailure(inner) => {
                framed_message("health ping connection failure: `", inner.as_str(), "`")
            },
            Error::TimedOut(elapsed) => {
                let s = elapsed.to_string();
                assert(displays_as(elapsed, s@));
                s
            },
            Error::InvalidUri(invalid) => {
                let d = invalid.to_string();
                assert(displays_as(invalid, d@));
                framed_message("failed to parse connection uri: `", d.as_str(), "`")
            },
            Error::Rpc(status) => {
                framed_message("rpc failure: `", status.as_str(), "`")
            },
            Error::Transport(transport) => {
                framed_message("transport failure: `", transport.as_str(), "`")
            },
            Error::ParseInteger(parse) => {
                let d = parse.to_string();
                assert(displays_as(parse, d@));
                framed_message("failed to parse integer: `", d.as_str(), "`")
            },
            Error::UnknownState(us) => {
                framed_message("received an unknown state '", us.as_str(), "' from agones")
            },
            Error::InvalidIp { ip_str, err } => {
                let mut text = framed_message("failed to parse ip '", ip_str.as_str(), "': ");
                text.append(err.as_str());
                text
            },
            Error::InvalidComponentRange(cr) => {
                let d = cr.to_string();
                assert(displays_as(cr, d@));
                framed_message("invalid component range: ", d.as_str(), "")
            },
        }
    }
}

/// Puts `inner` between `prefix` and `suffix`.
fn framed_message(prefix: &str, inner: &str, suffix: &str) -> (text: String)
    ensures
        text@ == framed(prefix, inner@, suffix),
{
    let mut text = String::from_str(prefix);
    text.append(inner);
    text.append(suffix);
    text
}

} // verus!
