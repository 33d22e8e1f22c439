//! The messages that the provider exchanges with a relying party.

use crate::attributes::Attributes;
use vstd::prelude::*;

verus! {

/// A relying party's request to start an authentication.
#[derive(Debug)]
pub struct StartAuthRequest {
    /// The names of the attributes to disclose, in the order asked for.
    pub attributes: Vec<String>,
    /// Where the user's browser returns to.
    pub continuation: String,
    /// Where the result is to be posted, if it is not to travel with the
    /// browser.
    pub attr_url: Option<String>,
}

/// The mathematical model of a [`StartAuthRequest`].
pub struct StartAuthRequestView {
    pub attributes: Seq<Seq<char>>,
    pub continuation: Seq<char>,
    pub attr_url: Option<Seq<char>>,
}

impl View for StartAuthRequest {
    type V = StartAuthRequestView;

    open spec fn view(&self) -> StartAuthRequestView {
        StartAuthRequestView {
            attributes: self.attributes.deep_view(),
            continuation: self.continuation@,
            attr_url: match self.attr_url {
                Some(url) => Some(url@),
                None => None,
            },
        }
    }
}

/// The answer to a [`StartAuthRequest`].
#[derive(Debug)]
pub struct StartAuthResponse {
    /// The URL to send the user's browser to.
    pub client_url: String,
}

impl View for StartAuthResponse {
    type V = Seq<char>;

    /// The client URL.
    open spec fn view(&self) -> Seq<char> {
        self.client_url@
    }
}

/// How an authentication ended.
#[derive(Debug, Clone, Copy, PartialEq, Eq, Structural)]
pub enum AuthStatus {
    Success,
    Failed,
}

/// What the provider asserts about the user.
#[derive(Debug)]
pub struct AuthResult {
    /// How the authentication ended.
    pub status: AuthStatus,
    /// The disclosed attributes.
    pub attributes: Option<Attributes>,
    /// Where the relying party reports session activity, if sessions are on.
    pub session_url: Option<String>,
}

/// The mathematical model of an [`AuthResult`].
pub struct AuthResultView {
    pub status: AuthStatus,
    pub attributes: Option<Map<Seq<char>, Seq<char>>>,
    pub session_url: Option<Seq<char>>,
}

impl View for AuthResult {
    type V = AuthResultView;

    open spec fn view(&self) -> AuthResultView {
        AuthResultView {
            status: self.status,
            attributes: match self.attributes {
                Some(attributes) => Some(attributes@),
                None => None,
            },
            session_url: match self.session_url {
                Some(url) => Some(url@),
                None => None,
            },
        }
    }
}

/// The assertion for a successful disclosure of `attributes`: its status is
/// `Success`, and it names the session endpoint under `internal_url` exactly
/// when sessions are on.
pub open spec fn spec_success(
    attributes: Map<Seq<char>, Seq<char>>,
    with_session: bool,
    internal_url: Seq<char>,
) -> AuthResultView {
    AuthResultView {
        status: AuthStatus::Success,
        attributes: Some(attributes),
        session_url: if with_session {
            Some(internal_url + "/session/update"@)
        } else {
            None
        },
    }
}

impl AuthResult {
    /// Builds the assertion for a successful disclosure of `attributes`.
    pub fn success(attributes: Attributes, with_session: bool, internal_url: &str) -> (result:
        AuthResult)
        ensures
            result@ == spec_success(attributes@, with_session, internal_url@),
    {
        let session_url = if with_session {
            let mut url = String::from_str(internal_url);
            url.append("/session/update");
            Some(url)
        } else {
            None
        };
        AuthResult { status: AuthStatus::Success, attributes: Some(attributes), session_url }
    }
}

/// A notification of session activity from the relying party's frontend.
#[derive(Debug)]
pub struct SessionUpdateData {
    /// The kind of activity that is reported.
    pub typeval: String,
}

impl View for SessionUpdateData {
    type V = Seq<char>;

    /// The kind of activity.
    open spec fn view(&self) -> Seq<char> {
        self.typeval@
    }
}

/// The one parameter of the confirmation page.
#[derive(Debug)]
pub struct ConfirmTemplate {
    /// The link that the page offers: the delivery endpoint for this request.
    pub dologin: String,
}

impl View for ConfirmTemplate {
    type V = Seq<char>;

    /// The link.
    open spec fn view(&self) -> Seq<char> {
        self.dologin@
    }
}

/// Where to send the user's browser.
#[derive(Debug)]
pub struct Redirect {
    pub location: String,
}

impl View for Redirect {
    type V = Seq<char>;

    /// The location.
    open spec fn view(&self) -> Seq<char> {
        self.location@
    }
}

} // verus!
