//! The errors with which a request can end.

use crate::config;
use vstd::prelude::*;
use vstd::string::*;

verus! {

/// The error that `base64::decode_config` returns. Nothing is known of what
/// a value holds.
#[verifier::external_type_specification]
#[verifier::external_body]
pub struct ExDecodeError(base64::DecodeError);

/// The error that `core::str::from_utf8` returns. Nothing is known of what a
/// value holds.
#[verifier::external_type_specification]
#[verifier::external_body]
pub struct ExUtf8Error(core::str::Utf8Error);

/// Why a request failed.
#[derive(Debug)]
pub enum Error {
    /// The catalog refused the requested attributes.
    Config(config::Error),
    /// A URL segment is not URL-safe base64.
    Decode(base64::DecodeError),
    /// The attribute segment does not hold a JSON list of strings; the text
    /// is the description that the JSON reader gave.
    Json(String),
    /// A URL segment does not hold UTF-8 text.
    Utf(core::str::Utf8Error),
    /// The assertion could not be signed and encrypted; the text is the
    /// description that the signing side gave.
    Jwt(String),
}

/// The mathematical model of an [`Error`]: which kind it is, and for the
/// kinds that carry plain text, that text.
pub enum ErrorView {
    Config(config::ErrorView),
    Decode,
    Json(Seq<char>),
    Utf,
    Jwt(Seq<char>),
}

impl View for Error {
    type V = ErrorView;

    open spec fn view(&self) -> ErrorView {
        match self {
            Error::Config(e) => ErrorView::Config(e@),
            Error::Decode(_) => ErrorView::Decode,
            Error::Json(text) => ErrorView::Json(text@),
            Error::Utf(_) => ErrorView::Utf,
            Error::Jwt(text) => ErrorView::Jwt(text@),
        }
    }
}

/// The step at which a request failed.
#[derive(Debug, Clone, Copy, PartialEq, Eq, Structural)]
pub enum Stage {
    /// Starting an authentication.
    Start,
    /// Delivering the assertion.
    Delivery,
}

/// What the party that made a failed request is told.
#[derive(Debug)]
pub enum Reply {
    /// The request was refused, for the reason given.
    Refused(String),
    /// The provider failed. Why it did is for the log and is told to nobody.
    Failed,
}

/// The mathematical model of a [`Reply`].
pub enum ReplyView {
    Refused(Seq<char>),
    Failed,
}

impl View for Reply {
    type V = ReplyView;

    open spec fn view(&self) -> ReplyView {
        match self {
            Reply::Refused(reason) => ReplyView::Refused(reason@),
            Reply::Failed => ReplyView::Failed,
        }
    }
}

/// What is told of an error that came up at `stage`. A relying party that
/// asks for attributes outside the catalog is told so when it starts the
/// authentication. Everything else is the provider's failure, and so is an
/// unknown attribute that turns up at delivery: of those nothing is told.
pub open spec fn spec_reply(error: ErrorView, stage: Stage) -> ReplyView {
    match (stage, error) {
        (Stage::Start, ErrorView::Config(e)) => ReplyView::Refused(e.message()),
        _ => ReplyView::Failed,
    }
}

/// No reply gives away what went wrong inside the provider: a reply that
/// says anything at all answers the start of an authentication and says
/// what the catalog's own error says.
pub proof fn lemma_reply_tells_only_refusals(error: ErrorView, stage: Stage)
    ensures
        spec_reply(error, stage) matches ReplyView::Refused(reason) ==> {
            &&& stage == Stage::Start
            &&& error matches ErrorView::Config(e) && reason == e.message()
        },
        error is Decode || error is Json || error is Utf || error is Jwt ==> spec_reply(
            error,
            stage,
        ) == ReplyView::Failed,
        stage == Stage::Delivery ==> spec_reply(error, stage) == ReplyView::Failed,
{
}

/// `base64::DecodeError`'s `Display` text, through `to_string`. Nothing is
/// claimed of the text.
#[verifier::external_body]
fn decode_error_text(e: &base64::DecodeError) -> (text: String) {
    e.to_string()
}

/// `core::str::Utf8Error`'s `Display` text, through `to_string`. Nothing is
/// claimed of the text.
#[verifier::external_body]
fn utf8_error_text(e: &core::str::Utf8Error) -> (text: String) {
    e.to_string()
}

impl Error {
    /// The text that describes the error. For a catalog error it is that
    /// error's own text; for a JSON or signing failure the description it
    /// carries; for the others the text of the underlying error.
    pub fn message(&self) -> (text: String)
        ensures
            match self@ {
                ErrorView::Config(e) => text@ == e.message(),
                ErrorView::Json(description) => text@ == description,
                ErrorView::Jwt(description) => text@ == description,
                ErrorView::Decode | ErrorView::Utf => true,
            },
    {
        match self {
            Error::Config(e) => e.message(),
            Error::Decode(e) => decode_error_text(e),
            Error::Json(text) => text.clone(),
            Error::Utf(e) => utf8_error_text(e),
            Error::Jwt(text) => text.clone(),
        }
    }

    /// What the party that made the request is told of this error, which
    /// came up at `stage`.
    pub fn reply(&self, stage: Stage) -> (reply: Reply)
        ensures
            reply@ == spec_reply(self@, stage),
    {
        match (stage, self) {
            (Stage::Start, Error::Config(e)) => Reply::Refused(e.message()),
            _ => Reply::Failed,
        }
    }
}

} // verus!
