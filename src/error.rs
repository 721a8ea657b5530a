//! Errors of the status tools.
use vstd::prelude::*;

verus! {

/// Message of the player error raised when a metadata field is absent or of
/// another shape than expected.
pub const NO_MATCHING_TAG: &'static str = "no matching tag found";

/// What can go wrong in one invocation.
#[derive(Clone, Debug, PartialEq, Eq)]
pub enum Error {
    /// A local I/O failure, with its message.
    Io { msg: String },
    /// An HTTP failure, with its message.
    Reqwest { msg: String },
    /// A bus failure (no session bus, a timeout, a remote fault), with its message.
    DBus { msg: String },
    /// The player answered, but not with what was asked for.
    Player { msg: String },
    /// No usable weather API key was given.
    WeatherKeyError,
    /// The weather service answered without a forecast.
    WeatherFailError,
    /// The weather service answered with a failing HTTP status, rendered as text.
    WeatherResponseError { code: String },
}

/// The text shown for an error.
pub open spec fn error_text(e: Error) -> Seq<char> {
    match e {
        Error::Io { msg } => msg@,
        Error::Reqwest { msg } => msg@,
        Error::DBus { msg } => msg@,
        Error::Player { msg } => "Player Get failed: "@ + msg@,
        Error::WeatherKeyError => "Weather need key of api."@,
        Error::WeatherFailError => "Weather get fail."@,
        Error::WeatherResponseError { code } => "Weather Request failed:"@ + code@,
    }
}

/// The player error for a metadata field that is absent or mistyped.
pub open spec fn is_missing_tag(e: Error) -> bool {
    &&& e is Player
    &&& e->Player_msg@ == NO_MATCHING_TAG@
}

impl Error {
    /// The error for a metadata field that is absent or mistyped.
    pub fn missing_tag() -> (r: Error)
        ensures
            is_missing_tag(r),
    {
        Error::Player { msg: NO_MATCHING_TAG.to_owned() }
    }

    /// The text shown for this error.
    pub fn message(&self) -> (r: String)
        ensures
            r@ == error_text(*self),
    {
        match self {
            Error::Io { msg } => msg.clone(),
            Error::Reqwest { msg } => msg.clone(),
            Error::DBus { msg } => msg.clone(),
            Error::Player { msg } => String::from_str("Player Get failed: ").concat(msg.as_str()),
            Error::WeatherKeyError => String::from_str("Weather need key of api."),
            Error::WeatherFailError => String::from_str("Weather get fail."),
            Error::WeatherResponseError { code } => String::from_str(
                "Weather Request failed:",
            ).concat(code.as_str()),
        }
    }
}

} // verus!
