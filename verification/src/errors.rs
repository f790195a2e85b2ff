use vstd::prelude::*;
use crate::conduit_to_groupme::BotRole;
use crate::groupme::{Attachment, Member};

verus! {

/// What can go wrong.
#[derive(Debug)]
pub enum Error {
    /// An HTTP client failure, described.
    Reqwest(String),
    /// An I/O failure, described.
    Io(String),
    /// A database failure, described.
    Postgres(String),
    /// A JSON failure, described.
    SerdeJson(String),
    /// A URL that would not parse, described.
    UrlParsing(String),
    /// A date that would not parse, described.
    DateFormatParsing(String),
    /// A missing environment variable, described.
    EnvironmentVar(String),
    /// A name that names no variant, described.
    EnumParseError(String),
    Rle,
    /// A panic occurred in the signal-handling thread.
    SignalHandlingThreadPanicked,
    /// An HTTP request returned an error status.
    HttpError(u16),
    /// A message was too long for GroupMe.
    TextTooLong(String, Option<Vec<Attachment>>),
    /// A CSS selector failed to parse.
    Css,
    /// Scraping failed at the named place.
    Scraper(String),
    /// Login credentials are wrong.
    GaTechCreds,
    /// The Georgia Tech website bandwidth limit was exceeded (status 509).
    BandwidthLimitExceeded,
    /// A bot could not be found.
    AteData(BotRole),
    /// A database write failed to affect any rows.
    DbWriteNopped(String),
    /// An HTTP response expected empty was not.
    NonEmptyResponse(String),
    /// A JSON value was not of the expected shape.
    JsonTypeError(String),
    /// Failed to change Group ownership.
    GroupOwnershipChangeFailed,
    /// Unable to find the membership of an outgoing member.
    GroupRemovalFailed(Member),
}

} // verus!
