//! The provider's operations, in the order in which a request meets them.
//!
//! A request is stateless on the provider's side: what it has been through is
//! carried by the URL that the browser holds, and by the type of the value
//! that a step hands to the next.
//!
//! - Started: `start_authentication` checks the requested attributes against
//!   the catalog. A request that names an unknown attribute is rejected with
//!   that name, and nothing is encoded for it. Any other request is answered
//!   with the URL of the confirmation page, which carries the request as
//!   encoded segments.
//! - Awaiting confirmation: `confirm_ib` and `confirm_oob` give the
//!   confirmation page its link. They look at nothing and hand the segments
//!   on as they came.
//! - Delivering: `user_inline` and `user_oob` decode the attribute segment,
//!   resolve the attributes and build the assertion. What they return is a
//!   pending delivery. Signing and encrypting the assertion is not done
//!   here: the pending delivery shows the assertion and takes the outcome.
//!   An out-of-band delivery then says what to post where, and takes the
//!   outcome of that too.
//! - Done or failed: only a pending delivery that was given a token yields a
//!   redirect, so the assertion is always built before it is signed, and
//!   signed before anything is delivered. A failure of the post to the
//!   relying party is not a failure of the request.
//!
//! `session_update` stands apart from all of this.

use crate::codec::{
    attributes_segment,
    decode_attributes,
    decode_url,
    decoded_attributes,
    decoded_url,
    encode_attributes,
    encode_url,
    url_segment,
};
use crate::config::{
    lemma_known_names_resolve,
    lemma_unknown_name_rejected,
    resolved,
    verified,
    Config,
    ConfigView,
};
use crate::error::{Error, ErrorView};
use crate::proto::{
    spec_success,
    AuthResult,
    AuthResultView,
    AuthStatus,
    ConfirmTemplate,
    Redirect,
    SessionUpdateData,
    StartAuthRequest,
    StartAuthRequestView,
    StartAuthResponse,
};
use vstd::prelude::*;
use vstd::string::*;

verus! {

/// The segments of a request as they stand in a URL: the attribute segment,
/// the continuation segment and, where there is one, the callback segment,
/// with `/` between them.
pub open spec fn spec_segments(
    attributes: Seq<char>,
    continuation: Seq<char>,
    attr_url: Option<Seq<char>>,
) -> Seq<char> {
    match attr_url {
        Some(attr_url) => attributes + "/"@ + continuation + "/"@ + attr_url,
        None => attributes + "/"@ + continuation,
    }
}

/// The URL of the confirmation page for a request that travels as the given
/// segments.
pub open spec fn spec_client_url(
    server_url: Seq<char>,
    attributes: Seq<char>,
    continuation: Seq<char>,
    attr_url: Option<Seq<char>>,
) -> Seq<char> {
    server_url + "/confirm/"@ + spec_segments(attributes, continuation, attr_url)
}

/// The URL of the delivery endpoint for a request that travels as the given
/// segments.
pub open spec fn spec_browser_url(
    server_url: Seq<char>,
    attributes: Seq<char>,
    continuation: Seq<char>,
    attr_url: Option<Seq<char>>,
) -> Seq<char> {
    server_url + "/browser/"@ + spec_segments(attributes, continuation, attr_url)
}

/// `continuation` with the token added as the query parameter `result`:
/// behind `&` where the URL has a `?` already, behind `?` otherwise.
pub open spec fn spec_redirect_with_result(continuation: Seq<char>, token: Seq<char>) -> Seq<
    char,
> {
    if continuation.contains('?') {
        continuation + "&result="@ + token
    } else {
        continuation + "?result="@ + token
    }
}

/// What `start_authentication` answers: the confirmation page's URL, which
/// carries the encoded request, when the catalog holds every requested
/// attribute; else the first attribute that it lacks.
pub open spec fn spec_start_authentication(
    config: ConfigView,
    request: StartAuthRequestView,
) -> Result<Seq<char>, ErrorView> {
    match verified(config.attributes, request.attributes) {
        Err(e) => Err(ErrorView::Config(e)),
        Ok(_) => Ok(
            spec_client_url(
                config.server_url,
                attributes_segment(request.attributes),
                url_segment(request.continuation),
                match request.attr_url {
                    Some(attr_url) => Some(url_segment(attr_url)),
                    None => None,
                },
            ),
        ),
    }
}

/// The assertion for the request whose attribute names travel as
/// `attributes`, or why there is none: the segment does not decode, or the
/// catalog lacks one of the names.
pub open spec fn spec_assertion(config: ConfigView, attributes: Seq<char>) -> Result<
    AuthResultView,
    ErrorView,
> {
    match decoded_attributes(attributes) {
        Err(e) => Err(e),
        Ok(names) => match resolved(config.attributes, names) {
            Err(e) => Err(ErrorView::Config(e)),
            Ok(values) => Ok(spec_success(values, config.with_session, config.internal_url)),
        },
    }
}

/// Where an inline delivery sends the browser once the outcome of signing
/// and encrypting is known: a failure there ends the request; else the
/// continuation segment is decoded and the token added to it.
pub open spec fn spec_deliver(
    continuation: Seq<char>,
    protected: Result<Seq<char>, Seq<char>>,
) -> Result<Seq<char>, ErrorView> {
    match protected {
        Err(description) => Err(ErrorView::Jwt(description)),
        Ok(token) => match decoded_url(continuation) {
            Err(e) => Err(e),
            Ok(continuation) => Ok(spec_redirect_with_result(continuation, token)),
        },
    }
}

/// What an out-of-band delivery reports once the outcome of signing and
/// encrypting is known: a failure there ends the request; else the
/// continuation segment and the callback segment are decoded, in that order.
pub open spec fn spec_report(
    continuation: Seq<char>,
    attr_url: Seq<char>,
    protected: Result<Seq<char>, Seq<char>>,
) -> Result<ReportView, ErrorView> {
    match protected {
        Err(description) => Err(ErrorView::Jwt(description)),
        Ok(token) => match decoded_url(continuation) {
            Err(e) => Err(e),
            Ok(continuation) => match decoded_url(attr_url) {
                Err(e) => Err(e),
                Ok(attr_url) => Ok(ReportView { token, continuation, attr_url }),
            },
        },
    }
}

/// Whether `text` holds the character `c`.
pub fn contains_char(text: &str, c: char) -> (found: bool)
    ensures
        found == text@.contains(c),
{
    let mut found = false;
    for x in it: text.chars()
        invariant
            it.seq() == text@,
            found ==> text@.contains(c),
            !found ==> forall|k: int| 0 <= k < it.index() ==> text@[k] != c,
    {
        if x == c {
            found = true;
        }
    }
    found
}

/// Appends the segments of a request to `url`, with `/` between them.
fn append_segments(url: &mut String, attributes: &str, continuation: &str, attr_url: Option<&str>)
    ensures
        final(url)@ == old(url)@ + spec_segments(
            attributes@,
            continuation@,
            attr_url.deep_view(),
        ),
{
    url.append(attributes);
    url.append("/");
    url.append(continuation);
    match attr_url {
        Some(attr_url) => {
            url.append("/");
            url.append(attr_url);
        },
        None => {},
    }
}

/// The URL of the confirmation page for a request that travels as the given
/// segments.
pub fn client_url(
    server_url: &str,
    attributes: &str,
    continuation: &str,
    attr_url: Option<&str>,
) -> (url: String)
    ensures
        url@ == spec_client_url(server_url@, attributes@, continuation@, attr_url.deep_view()),
{
    let mut url = String::from_str(server_url);
    url.append("/confirm/");
    append_segments(&mut url, attributes, continuation, attr_url);
    url
}

/// The URL of the delivery endpoint for a request that travels as the given
/// segments.
pub fn browser_url(
    server_url: &str,
    attributes: &str,
    continuation: &str,
    attr_url: Option<&str>,
) -> (url: String)
    ensures
        url@ == spec_browser_url(server_url@, attributes@, continuation@, attr_url.deep_view()),
{
    let mut url = String::from_str(server_url);
    url.append("/browser/");
    append_segments(&mut url, attributes, continuation, attr_url);
    url
}

/// Adds the token to `continuation` as the query parameter `result`.
pub fn redirect_with_result(continuation: &str, token: &str) -> (redirect: Redirect)
    ensures
        redirect@ == spec_redirect_with_result(continuation@, token@),
{
    let mut location = String::from_str(continuation);
    if contains_char(continuation, '?') {
        location.append("&result=");
    } else {
        location.append("?result=");
    }
    location.append(token);
    Redirect { location }
}

/// The provider: the operations below, around the configuration that they
/// share. Nothing changes it once it is built.
#[derive(Debug)]
pub struct Provider {
    config: Config,
}

impl View for Provider {
    type V = ConfigView;

    closed spec fn view(&self) -> ConfigView {
        self.config@
    }
}

/// Sets the provider up around its configuration.
pub fn rocket(config: Config) -> (provider: Provider)
    ensures
        provider@ == config@,
{
    Provider { config }
}

/// Takes note of session activity. All there is to it is the line to log:
/// the operation is given neither the provider nor any delivery, so it can
/// neither read nor change them.
pub fn session_update(typedata: &SessionUpdateData) -> (line: String)
    ensures
        line@ == "Session update received: "@ + typedata@,
{
    let mut line = String::from_str("Session update received: ");
    line.append(typedata.typeval.as_str());
    line
}

/// An inline delivery that waits for its assertion to be signed and
/// encrypted.
#[derive(Debug)]
pub struct PendingInline {
    auth_result: AuthResult,
    continuation: String,
}

/// The mathematical model of a [`PendingInline`].
pub struct PendingInlineView {
    /// The assertion to sign and encrypt.
    pub auth_result: AuthResultView,
    /// The continuation segment, as it was received.
    pub continuation: Seq<char>,
}

impl View for PendingInline {
    type V = PendingInlineView;

    closed spec fn view(&self) -> PendingInlineView {
        PendingInlineView { auth_result: self.auth_result@, continuation: self.continuation@ }
    }
}

/// An out-of-band delivery that waits for its assertion to be signed and
/// encrypted.
#[derive(Debug)]
pub struct PendingOob {
    auth_result: AuthResult,
    continuation: String,
    attr_url: String,
}

/// The mathematical model of a [`PendingOob`].
pub struct PendingOobView {
    /// The assertion to sign and encrypt.
    pub auth_result: AuthResultView,
    /// The continuation segment, as it was received.
    pub continuation: Seq<char>,
    /// The callback segment, as it was received.
    pub attr_url: Seq<char>,
}

impl View for PendingOob {
    type V = PendingOobView;

    closed spec fn view(&self) -> PendingOobView {
        PendingOobView {
            auth_result: self.auth_result@,
            continuation: self.continuation@,
            attr_url: self.attr_url@,
        }
    }
}

/// An out-of-band delivery whose token waits to be posted to the relying
/// party.
#[derive(Debug)]
pub struct Report {
    token: String,
    continuation: String,
    attr_url: String,
}

/// The mathematical model of a [`Report`].
pub struct ReportView {
    /// The signed and encrypted assertion.
    pub token: Seq<char>,
    /// The URL that the browser returns to.
    pub continuation: Seq<char>,
    /// The URL that the token is posted to.
    pub attr_url: Seq<char>,
}

impl View for Report {
    type V = ReportView;

    closed spec fn view(&self) -> ReportView {
        ReportView {
            token: self.token@,
            continuation: self.continuation@,
            attr_url: self.attr_url@,
        }
    }
}

/// How an out-of-band delivery ended.
#[derive(Debug)]
pub struct Delivered {
    /// Where the browser goes.
    pub redirect: Redirect,
    /// Why the relying party did not get the token, if posting it failed.
    /// This is for the log only.
    pub warning: Option<String>,
}

/// The mathematical model of a [`Delivered`].
pub struct DeliveredView {
    pub redirect: Seq<char>,
    pub warning: Option<Seq<char>>,
}

impl View for Delivered {
    type V = DeliveredView;

    open spec fn view(&self) -> DeliveredView {
        DeliveredView {
            redirect: self.redirect@,
            warning: match self.warning {
                Some(warning) => Some(warning@),
                None => None,
            },
        }
    }
}

/// How an out-of-band delivery ends: the browser goes to the continuation
/// URL as it is, whatever became of the post; a failed post leaves its
/// description as a warning.
pub open spec fn spec_finish(report: ReportView, posted: Result<(), Seq<char>>) -> DeliveredView {
    DeliveredView {
        redirect: report.continuation,
        warning: match posted {
            Ok(_) => None,
            Err(description) => Some(description),
        },
    }
}

impl Provider {
    /// The configuration that the provider was set up with.
    pub fn config(&self) -> (config: &Config)
        ensures
            config@ == self@,
    {
        &self.config
    }

    /// Starts an authentication: checks the requested attributes against the
    /// catalog and answers with the URL of the confirmation page, which
    /// carries the request as encoded segments.
    pub fn start_authentication(&self, request: &StartAuthRequest) -> (r: Result<
        StartAuthResponse,
        Error,
    >)
        ensures
            match r {
                Ok(response) => spec_start_authentication(self@, request@) == Ok::<
                    Seq<char>,
                    ErrorView,
                >(response@),
                Err(e) => spec_start_authentication(self@, request@) == Err::<
                    Seq<char>,
                    ErrorView,
                >(e@),
            },
    {
        match self.config.verify_attributes(request.attributes.as_slice()) {
            Ok(_) => {},
            Err(e) => {
                return Err(Error::Config(e));
            },
        }
        let attributes = encode_attributes(&request.attributes)?;
        let continuation = encode_url(request.continuation.as_str());
        let client_url = match &request.attr_url {
            Some(attr_url) => {
                let attr_url = encode_url(attr_url.as_str());
                client_url(
                    self.config.server_url(),
                    attributes.as_str(),
                    continuation.as_str(),
                    Some(attr_url.as_str()),
                )
            },
            None => client_url(
                self.config.server_url(),
                attributes.as_str(),
                continuation.as_str(),
                None,
            ),
        };
        Ok(StartAuthResponse { client_url })
    }

    /// The confirmation page of a request with out-of-band delivery: its
    /// link is the delivery endpoint with the three segments as received.
    pub fn confirm_oob(&self, attributes: &str, continuation: &str, attr_url: &str) -> (page:
        ConfirmTemplate)
        ensures
            page@ == spec_browser_url(
                self@.server_url,
                attributes@,
                continuation@,
                Some(attr_url@),
            ),
    {
        ConfirmTemplate {
            dologin: browser_url(
                self.config.server_url(),
                attributes,
                continuation,
                Some(attr_url),
            ),
        }
    }

    /// The confirmation page of a request with inline delivery: its link is
    /// the delivery endpoint with the two segments as received.
    pub fn confirm_ib(&self, attributes: &str, continuation: &str) -> (page: ConfirmTemplate)
        ensures
            page@ == spec_browser_url(
                self@.server_url,
                attributes@,
                continuation@,
                None,
            ),
    {
        ConfirmTemplate {
            dologin: browser_url(self.config.server_url(), attributes, continuation, None),
        }
    }

    /// Builds the assertion for the attribute names that travel as
    /// `attributes`.
    pub fn auth_result(&self, attributes: &str) -> (r: Result<AuthResult, Error>)
        ensures
            match r {
                Ok(auth_result) => spec_assertion(self@, attributes@) == Ok::<
                    AuthResultView,
                    ErrorView,
                >(auth_result@),
                Err(e) => spec_assertion(self@, attributes@) == Err::<AuthResultView, ErrorView>(
                    e@,
                ),
            },
    {
        let names = decode_attributes(attributes)?;
        match self.config.map_attributes(names.as_slice()) {
            Ok(values) => Ok(
                AuthResult::success(
                    values,
                    self.config.with_session(),
                    self.config.internal_url(),
                ),
            ),
            Err(e) => Err(Error::Config(e)),
        }
    }

    /// Begins an inline delivery: builds the assertion and keeps the
    /// continuation segment for the redirect.
    pub fn user_inline(&self, attributes: &str, continuation: &str) -> (r: Result<
        PendingInline,
        Error,
    >)
        ensures
            match r {
                Ok(pending) => spec_assertion(self@, attributes@) == Ok::<
                    AuthResultView,
                    ErrorView,
                >(pending@.auth_result) && pending@.continuation == continuation@,
                Err(e) => spec_assertion(self@, attributes@) == Err::<AuthResultView, ErrorView>(
                    e@,
                ),
            },
    {
        let auth_result = self.auth_result(attributes)?;
        Ok(PendingInline { auth_result, continuation: String::from_str(continuation) })
    }

    /// Begins an out-of-band delivery: builds the assertion and keeps the
    /// continuation and callback segments for what follows.
    pub fn user_oob(&self, attributes: &str, continuation: &str, attr_url: &str) -> (r: Result<
        PendingOob,
        Error,
    >)
        ensures
            match r {
                Ok(pending) => spec_assertion(self@, attributes@) == Ok::<
                    AuthResultView,
                    ErrorView,
                >(pending@.auth_result) && pending@.continuation == continuation@
                    && pending@.attr_url == attr_url@,
                Err(e) => spec_assertion(self@, attributes@) == Err::<AuthResultView, ErrorView>(
                    e@,
                ),
            },
    {
        let auth_result = self.auth_result(attributes)?;
        Ok(
            PendingOob {
                auth_result,
                continuation: String::from_str(continuation),
                attr_url: String::from_str(attr_url),
            },
        )
    }
}

impl PendingInline {
    /// The assertion to sign and encrypt.
    pub fn auth_result(&self) -> (auth_result: &AuthResult)
        ensures
            auth_result@ == self@.auth_result,
    {
        &self.auth_result
    }

    /// Ends the delivery. `protected` is the outcome of signing and
    /// encrypting the assertion: the token, or a description of the failure.
    /// With a token, the browser is sent to the continuation URL with the
    /// token added as the query parameter `result`.
    pub fn deliver(self, protected: Result<String, String>) -> (r: Result<Redirect, Error>)
        ensures
            match r {
                Ok(redirect) => spec_deliver(self@.continuation, result_view(protected)) == Ok::<
                    Seq<char>,
                    ErrorView,
                >(redirect@),
                Err(e) => spec_deliver(self@.continuation, result_view(protected)) == Err::<
                    Seq<char>,
                    ErrorView,
                >(e@),
            },
    {
        match protected {
            Err(description) => Err(Error::Jwt(description)),
            Ok(token) => {
                let continuation = decode_url(self.continuation.as_str())?;
                Ok(redirect_with_result(continuation.as_str(), token.as_str()))
            },
        }
    }
}

impl PendingOob {
    /// The assertion to sign and encrypt.
    pub fn auth_result(&self) -> (auth_result: &AuthResult)
        ensures
            auth_result@ == self@.auth_result,
    {
        &self.auth_result
    }

    /// Takes the outcome of signing and encrypting the assertion: the token,
    /// or a description of the failure. With a token, decodes the
    /// continuation and callback segments and says what to post where.
    pub fn report(self, protected: Result<String, String>) -> (r: Result<Report, Error>)
        ensures
            match r {
                Ok(report) => spec_report(
                    self@.continuation,
                    self@.attr_url,
                    result_view(protected),
                ) == Ok::<ReportView, ErrorView>(report@),
                Err(e) => spec_report(self@.continuation, self@.attr_url, result_view(protected))
                    == Err::<ReportView, ErrorView>(e@),
            },
    {
        match protected {
            Err(description) => Err(Error::Jwt(description)),
            Ok(token) => {
                let continuation = decode_url(self.continuation.as_str())?;
                let attr_url = decode_url(self.attr_url.as_str())?;
                Ok(Report { token, continuation, attr_url })
            },
        }
    }
}

impl Report {
    /// The URL to post the token to.
    pub fn attr_url(&self) -> (url: &str)
        ensures
            url@ == self@.attr_url,
    {
        self.attr_url.as_str()
    }

    /// The body to post: the token.
    pub fn body(&self) -> (token: &str)
        ensures
            token@ == self@.token,
    {
        self.token.as_str()
    }

    /// The content type to post the token with.
    pub fn content_type(&self) -> (content_type: &'static str)
        ensures
            content_type@ == "application/jwt"@,
    {
        "application/jwt"
    }

    /// Ends the delivery. `posted` is the outcome of posting the token: a
    /// failure is kept as a warning and changes nothing else. The browser is
    /// sent to the continuation URL as it is, without the token.
    pub fn finish(self, posted: Result<(), String>) -> (delivered: Delivered)
        ensures
            delivered@ == spec_finish(
                self@,
                match posted {
                    Ok(_) => Ok(()),
                    Err(description) => Err(description@),
                },
            ),
            delivered@.redirect == self@.continuation,
    {
        let warning = match posted {
            Ok(_) => None,
            Err(description) => Some(description),
        };
        Delivered { redirect: Redirect { location: self.continuation }, warning }
    }
}

/// A request for attributes of the catalog is accepted: when the catalog
/// holds every requested attribute, starting the authentication yields a
/// client URL.
pub proof fn lemma_start_accepts_known(config: ConfigView, request: StartAuthRequestView)
    requires
        request.attributes.to_set().subset_of(config.attributes.dom()),
    ensures
        spec_start_authentication(config, request) is Ok,
{
    lemma_known_names_resolve(config.attributes, request.attributes);
}

/// A request for anything outside the catalog is refused: when the catalog
/// lacks a requested attribute, starting the authentication yields no client
/// URL but the first requested attribute that the catalog lacks.
pub proof fn lemma_start_rejects_unknown(config: ConfigView, request: StartAuthRequestView)
    requires
        !request.attributes.to_set().subset_of(config.attributes.dom()),
    ensures
        spec_start_authentication(config, request) matches Err(
            ErrorView::Config(crate::config::ErrorView::UnknownAttribute(name)),
        ) && request.attributes.contains(name) && !config.attributes.contains_key(name),
{
    lemma_unknown_name_rejected(config.attributes, request.attributes);
}

/// The same holds at delivery: when the attribute segment decodes to names
/// of which the catalog lacks one, there is no assertion but the first name
/// that the catalog lacks.
pub proof fn lemma_assertion_rejects_unknown(
    config: ConfigView,
    attributes: Seq<char>,
    names: Seq<Seq<char>>,
)
    requires
        decoded_attributes(attributes) == Ok::<Seq<Seq<char>>, ErrorView>(names),
        !names.to_set().subset_of(config.attributes.dom()),
    ensures
        spec_assertion(config, attributes) matches Err(
            ErrorView::Config(crate::config::ErrorView::UnknownAttribute(name)),
        ) && names.contains(name) && !config.attributes.contains_key(name),
{
    lemma_unknown_name_rejected(config.attributes, names);
}

/// An assertion discloses exactly what was asked for: when the attribute
/// segment decodes to names of the catalog, the assertion's status is
/// `Success` and its attributes are the requested names with the catalog's
/// values.
pub proof fn lemma_assertion_discloses_requested(
    config: ConfigView,
    attributes: Seq<char>,
    names: Seq<Seq<char>>,
)
    requires
        decoded_attributes(attributes) == Ok::<Seq<Seq<char>>, ErrorView>(names),
        names.to_set().subset_of(config.attributes.dom()),
    ensures
        spec_assertion(config, attributes) matches Ok(assertion) && {
            &&& assertion.status == AuthStatus::Success
            &&& assertion.attributes matches Some(values) && {
                &&& values.dom() == names.to_set()
                &&& forall|name: Seq<char>| #[trigger]
                    names.contains(name) ==> values[name] == config.attributes[name]
            }
        },
{
    lemma_known_names_resolve(config.attributes, names);
}

/// The mathematical model of an outcome that is either a text or the
/// description of a failure.
pub open spec fn result_view(r: Result<String, String>) -> Result<Seq<char>, Seq<char>> {
    match r {
        Ok(text) => Ok(text@),
        Err(description) => Err(description@),
    }
}

} // verus!
