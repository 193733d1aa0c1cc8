//! Data carried through the life of a request: the seed a build starts
//! from, the record of what was built, and the exchange or error that
//! sending it ends in.

use crate::collection::{Authentication, Method, ProfileId, Recipe, RecipeId};
use vstd::prelude::*;
use vstd::std_specs::cmp::PartialEqSpecImpl;

verus! {

/// Identifier of one build attempt. It is chosen when the seed is made and
/// stays with everything the attempt produces.
#[derive(Clone, Copy, Debug, Eq, Hash)]
pub struct RequestId(pub u128);

impl PartialEq for RequestId {
    fn eq(&self, other: &RequestId) -> (same: bool) {
        self.0 == other.0
    }
}

impl PartialEqSpecImpl for RequestId {
    open spec fn obeys_eq_spec() -> bool {
        true
    }

    open spec fn eq_spec(&self, other: &RequestId) -> bool {
        self.0 == other.0
    }
}

/// Overrides that the caller supplies for a single build.
#[derive(Debug, PartialEq, Eq)]
pub struct BuildOptions {
    /// Names of the recipe's headers to leave out. A header is left out
    /// before anything of it is rendered.
    pub disabled_headers: Vec<String>,
    /// Names of the recipe's query parameters to leave out, likewise.
    pub disabled_query_parameters: Vec<String>,
    /// Authentication to send in place of the recipe's own.
    pub authentication_override: Option<Authentication<String>>,
    /// Body to send in place of the recipe's own.
    pub body_override: Option<Vec<u8>>,
    /// Replacement values for form fields, by field name. Carried for the
    /// caller; the request pipeline builds no form and reads none of it.
    pub form_field_overrides: Vec<(String, String)>,
}

impl BuildOptions {
    /// Options that override nothing.
    pub fn new() -> (options: BuildOptions)
        ensures
            options.disabled_headers@.len() == 0,
            options.disabled_query_parameters@.len() == 0,
            options.authentication_override is None,
            options.body_override is None,
            options.form_field_overrides@.len() == 0,
    {
        BuildOptions {
            disabled_headers: Vec::new(),
            disabled_query_parameters: Vec::new(),
            authentication_override: None,
            body_override: None,
            form_field_overrides: Vec::new(),
        }
    }
}

/// Everything one build starts from.
#[derive(Debug, PartialEq, Eq)]
pub struct RequestSeed {
    pub id: RequestId,
    pub recipe: Recipe,
    pub options: BuildOptions,
}

impl RequestSeed {
    pub fn new(id: RequestId, recipe: Recipe, options: BuildOptions) -> (seed: RequestSeed)
        ensures
            seed.id == id,
            seed.recipe == recipe,
            seed.options == options,
    {
        RequestSeed { id, recipe, options }
    }
}

/// A URL as the request pipeline reads it: its text, and its host where it
/// has one.
pub struct UrlView {
    pub text: Seq<char>,
    pub host: Option<Seq<char>>,
}

/// A parsed URL.
#[derive(Debug, PartialEq, Eq)]
pub struct Url {
    text: String,
    host: Option<String>,
}

impl View for Url {
    type V = UrlView;

    closed spec fn view(&self) -> UrlView {
        UrlView { text: self.text@, host: self.host.deep_view() }
    }
}

impl Url {
    pub(crate) fn from_parts(text: String, host: Option<String>) -> (url: Url)
        ensures
            url@ == (UrlView { text: text@, host: host.deep_view() }),
    {
        Url { text, host }
    }

    /// The URL's text.
    pub fn as_str(&self) -> (text: &str)
        ensures
            text@ == self@.text,
    {
        self.text.as_str()
    }

    /// The URL's host, where it has one.
    pub fn host_str(&self) -> (host: Option<&str>)
        ensures
            host.deep_view() == self@.host,
    {
        match &self.host {
            Some(host) => Some(host.as_str()),
            None => None,
        }
    }
}

/// A header as name and value bytes.
pub type HeaderView = (Seq<char>, Seq<u8>);

pub struct RequestRecordView {
    pub id: RequestId,
    pub profile_id: Option<Seq<char>>,
    pub recipe_id: Seq<char>,
    pub method: Method,
    pub url: UrlView,
    pub headers: Seq<HeaderView>,
    pub body: Option<Seq<u8>>,
}

/// What was built for one request, with every value resolved. It is made
/// once per successful build and never changed.
#[derive(Debug, PartialEq, Eq)]
pub struct RequestRecord {
    pub id: RequestId,
    /// The profile that was selected when the request was built.
    pub profile_id: Option<ProfileId>,
    pub recipe_id: RecipeId,
    pub method: Method,
    /// The URL with its query.
    pub url: Url,
    /// Header names in lower case, with their values, in sending order.
    pub headers: Vec<(String, Vec<u8>)>,
    pub body: Option<Vec<u8>>,
}

impl View for RequestRecord {
    type V = RequestRecordView;

    open spec fn view(&self) -> RequestRecordView {
        RequestRecordView {
            id: self.id,
            profile_id: self.profile_id.deep_view(),
            recipe_id: self.recipe_id@,
            method: self.method,
            url: self.url@,
            headers: self.headers.deep_view(),
            body: self.body.deep_view(),
        }
    }
}

/// What a build can fail on.
#[derive(Clone, Copy, Debug, PartialEq, Eq, Structural)]
pub enum BuildErrorKind {
    /// The URL template did not render.
    RenderUrl,
    /// The value template of a query parameter did not render.
    RenderQueryParameter,
    /// The value template of a header did not render.
    RenderHeader,
    /// The username template did not render.
    RenderUsername,
    /// The password template did not render.
    RenderPassword,
    /// The bearer token template did not render.
    RenderBearerToken,
    /// The body template did not render.
    RenderBody,
    /// The rendered URL is no URL.
    InvalidUrl,
    /// A header's name holds a character that no header name may hold.
    HeaderName,
    /// A header's value holds a byte that no header value may hold.
    HeaderValue,
    /// The network client refused to make a request of the parts.
    Request,
}

pub struct BuildErrorView {
    pub kind: BuildErrorKind,
    pub subject: Seq<char>,
    pub cause: Seq<char>,
}

/// Why a build failed: the kind of failure, what it failed on, and the
/// description that the failing step gave.
#[derive(Debug, PartialEq, Eq)]
pub struct BuildError {
    pub kind: BuildErrorKind,
    /// The query parameter or header that failed, or the text that is no
    /// URL; empty for the other kinds.
    pub subject: String,
    /// What the renderer, parser or client said.
    pub cause: String,
}

impl View for BuildError {
    type V = BuildErrorView;

    open spec fn view(&self) -> BuildErrorView {
        BuildErrorView { kind: self.kind, subject: self.subject@, cause: self.cause@ }
    }
}

impl BuildErrorView {
    /// What was being done when the build failed.
    pub open spec fn context(self) -> Seq<char> {
        match self.kind {
            BuildErrorKind::RenderUrl => "Error rendering URL"@,
            BuildErrorKind::RenderQueryParameter => "Error rendering query parameter `"@
                + self.subject + "`"@,
            BuildErrorKind::RenderHeader => "Error rendering header `"@ + self.subject + "`"@,
            BuildErrorKind::RenderUsername => "Error rendering username"@,
            BuildErrorKind::RenderPassword => "Error rendering password"@,
            BuildErrorKind::RenderBearerToken => "Error rendering bearer token"@,
            BuildErrorKind::RenderBody => "Error rendering body"@,
            BuildErrorKind::InvalidUrl => "Invalid URL: `"@ + self.subject + "`"@,
            BuildErrorKind::HeaderName => "Error encoding header name `"@ + self.subject + "`"@,
            BuildErrorKind::HeaderValue => "Error encoding value for header `"@ + self.subject
                + "`"@,
            BuildErrorKind::Request => "Error building request"@,
        }
    }

    /// The context, and the cause after a colon where there is one.
    pub open spec fn message(self) -> Seq<char> {
        if self.cause.len() == 0 {
            self.context()
        } else {
            self.context() + ": "@ + self.cause
        }
    }
}

impl BuildError {
    /// What was being done when the build failed, naming the query
    /// parameter, header or URL text it failed on.
    pub fn context(&self) -> (text: String)
        ensures
            text@ == self@.context(),
    {
        match self.kind {
            BuildErrorKind::RenderUrl => "Error rendering URL".to_owned(),
            BuildErrorKind::RenderQueryParameter => quoted(
                "Error rendering query parameter `",
                &self.subject,
            ),
            BuildErrorKind::RenderHeader => quoted("Error rendering header `", &self.subject),
            BuildErrorKind::RenderUsername => "Error rendering username".to_owned(),
            BuildErrorKind::RenderPassword => "Error rendering password".to_owned(),
            BuildErrorKind::RenderBearerToken => "Error rendering bearer token".to_owned(),
            BuildErrorKind::RenderBody => "Error rendering body".to_owned(),
            BuildErrorKind::InvalidUrl => quoted("Invalid URL: `", &self.subject),
            BuildErrorKind::HeaderName => quoted("Error encoding header name `", &self.subject),
            BuildErrorKind::HeaderValue => quoted(
                "Error encoding value for header `",
                &self.subject,
            ),
            BuildErrorKind::Request => "Error building request".to_owned(),
        }
    }

    /// The context, and the cause after a colon where there is one.
    pub fn message(&self) -> (text: String)
        ensures
            text@ == self@.message(),
    {
        let mut text = self.context();
        if self.cause.as_str().unicode_len() > 0 {
            text.append(": ");
            text.append(self.cause.as_str());
        }
        text
    }
}

/// `prefix`, then `subject`, then a closing backtick.
fn quoted(prefix: &str, subject: &String) -> (text: String)
    ensures
        text@ == prefix@ + subject@ + "`"@,
{
    let mut text = prefix.to_owned();
    text.append(subject.as_str());
    text.append("`");
    text
}

pub struct RequestBuildErrorView {
    pub id: RequestId,
    pub recipe_id: Seq<char>,
    pub profile_id: Option<Seq<char>>,
    pub error: BuildErrorView,
}

/// A build that failed, before anything was sent. It says which build it
/// was, of which recipe and under which profile, and why it failed.
#[derive(Debug, PartialEq, Eq)]
pub struct RequestBuildError {
    pub id: RequestId,
    pub recipe_id: RecipeId,
    pub profile_id: Option<ProfileId>,
    pub error: BuildError,
}

impl View for RequestBuildError {
    type V = RequestBuildErrorView;

    open spec fn view(&self) -> RequestBuildErrorView {
        RequestBuildErrorView {
            id: self.id,
            recipe_id: self.recipe_id@,
            profile_id: self.profile_id.deep_view(),
            error: self.error@,
        }
    }
}

impl RequestBuildError {
    /// The failure of the build that `seed` started.
    pub fn new(error: BuildError, seed: RequestSeed, profile_id: Option<ProfileId>) -> (failure:
        RequestBuildError)
        ensures
            failure@ == (RequestBuildErrorView {
                id: seed.id,
                recipe_id: seed.recipe.id@,
                profile_id: profile_id.deep_view(),
                error: error@,
            }),
    {
        RequestBuildError { id: seed.id, recipe_id: seed.recipe.id, profile_id, error }
    }

    /// What to show for the failure: that the request could not be built,
    /// and the message of what failed.
    pub fn message(&self) -> (text: String)
        ensures
            text@ == "Error building request: "@ + self@.error.message(),
    {
        let mut text = "Error building request: ".to_owned();
        let detail = self.error.message();
        text.append(detail.as_str());
        text
    }
}


impl RequestRecord {
    /// The record of the build that `seed` started, with what was resolved
    /// for it.
    pub fn new(
        seed: RequestSeed,
        profile_id: Option<ProfileId>,
        url: Url,
        headers: Vec<(String, Vec<u8>)>,
        body: Option<Vec<u8>>,
    ) -> (record: RequestRecord)
        ensures
            record@ == (RequestRecordView {
                id: seed.id,
                profile_id: profile_id.deep_view(),
                recipe_id: seed.recipe.id@,
                method: seed.recipe.method,
                url: url@,
                headers: headers.deep_view(),
                body: body.deep_view(),
            }),
    {
        RequestRecord {
            id: seed.id,
            profile_id,
            recipe_id: seed.recipe.id,
            method: seed.recipe.method,
            url,
            headers,
            body,
        }
    }
}

pub struct ResponseRecordView {
    pub status: u16,
    pub headers: Seq<HeaderView>,
    pub body: Seq<u8>,
}

/// A response with its body read to the end.
#[derive(Debug, PartialEq, Eq)]
pub struct ResponseRecord {
    pub status: u16,
    pub headers: Vec<(String, Vec<u8>)>,
    pub body: Vec<u8>,
}

impl View for ResponseRecord {
    type V = ResponseRecordView;

    open spec fn view(&self) -> ResponseRecordView {
        ResponseRecordView {
            status: self.status,
            headers: self.headers.deep_view(),
            body: self.body@,
        }
    }
}

impl ResponseRecord {
    pub fn new(status: u16, headers: Vec<(String, Vec<u8>)>, body: Vec<u8>) -> (response:
        ResponseRecord)
        ensures
            response@ == (ResponseRecordView {
                status,
                headers: headers.deep_view(),
                body: body@,
            }),
    {
        ResponseRecord { status, headers, body }
    }
}

pub struct ExchangeView {
    pub id: RequestId,
    pub request: RequestRecordView,
    pub response: ResponseRecordView,
    pub start_time: i64,
    pub end_time: i64,
}

/// A request and the response to it, with the times between which it was
/// sent and answered. The end is never before the start, and the
/// identifier is that of the request.
#[derive(Debug, PartialEq, Eq)]
pub struct Exchange {
    id: RequestId,
    request: RequestRecord,
    response: ResponseRecord,
    start_time: i64,
    end_time: i64,
}

impl View for Exchange {
    type V = ExchangeView;

    closed spec fn view(&self) -> ExchangeView {
        ExchangeView {
            id: self.id,
            request: self.request@,
            response: self.response@,
            start_time: self.start_time,
            end_time: self.end_time,
        }
    }
}

impl Exchange {
    #[verifier::type_invariant]
    spec fn consistent(&self) -> bool {
        self.start_time <= self.end_time && self.id == self.request.id
    }

    /// The exchange of `request` and `response`. An end before the start
    /// is taken for the start.
    pub fn new(request: RequestRecord, response: ResponseRecord, start_time: i64, end_time: i64) -> (exchange:
        Exchange)
        ensures
            exchange@ == (ExchangeView {
                id: request.id,
                request: request@,
                response: response@,
                start_time,
                end_time: later(start_time, end_time),
            }),
    {
        let end_time = if end_time < start_time {
            start_time
        } else {
            end_time
        };
        Exchange { id: request.id, request, response, start_time, end_time }
    }

    pub fn id(&self) -> (id: RequestId)
        ensures
            id == self@.id,
            id == self@.request.id,
    {
        proof {
            use_type_invariant(self);
        }
        self.id
    }

    pub fn request(&self) -> (request: &RequestRecord)
        ensures
            request@ == self@.request,
    {
        &self.request
    }

    pub fn response(&self) -> (response: &ResponseRecord)
        ensures
            response@ == self@.response,
    {
        &self.response
    }

    /// When sending began, in microseconds since the Unix epoch.
    pub fn start_time(&self) -> (time: i64)
        ensures
            time == self@.start_time,
            time <= self@.end_time,
    {
        proof {
            use_type_invariant(self);
        }
        self.start_time
    }

    /// When the response was complete, in microseconds since the Unix
    /// epoch.
    pub fn end_time(&self) -> (time: i64)
        ensures
            time == self@.end_time,
            self@.start_time <= time,
    {
        proof {
            use_type_invariant(self);
        }
        self.end_time
    }
}

/// The later of the two times.
pub open spec fn later(start_time: i64, end_time: i64) -> i64 {
    if end_time < start_time {
        start_time
    } else {
        end_time
    }
}

pub struct RequestErrorView {
    pub request: RequestRecordView,
    pub start_time: i64,
    pub end_time: i64,
    pub error: Seq<char>,
}

/// A request that was built and could not be carried out. It holds the
/// request as it was built and the times between which it was tried; the
/// end is never before the start.
#[derive(Debug, PartialEq, Eq)]
pub struct RequestError {
    request: RequestRecord,
    start_time: i64,
    end_time: i64,
    error: String,
}

impl View for RequestError {
    type V = RequestErrorView;

    closed spec fn view(&self) -> RequestErrorView {
        RequestErrorView {
            request: self.request@,
            start_time: self.start_time,
            end_time: self.end_time,
            error: self.error@,
        }
    }
}

impl RequestError {
    #[verifier::type_invariant]
    spec fn consistent(&self) -> bool {
        self.start_time <= self.end_time
    }

    /// The failure of `request` with the network's `error`. An end before
    /// the start is taken for the start.
    pub fn new(request: RequestRecord, start_time: i64, end_time: i64, error: String) -> (failure:
        RequestError)
        ensures
            failure@ == (RequestErrorView {
                request: request@,
                start_time,
                end_time: later(start_time, end_time),
                error: error@,
            }),
    {
        let end_time = if end_time < start_time {
            start_time
        } else {
            end_time
        };
        RequestError { request, start_time, end_time, error }
    }

    pub fn request(&self) -> (request: &RequestRecord)
        ensures
            request@ == self@.request,
    {
        &self.request
    }

    /// When sending began, in microseconds since the Unix epoch.
    pub fn start_time(&self) -> (time: i64)
        ensures
            time == self@.start_time,
            time <= self@.end_time,
    {
        proof {
            use_type_invariant(self);
        }
        self.start_time
    }

    /// When sending was given up, in microseconds since the Unix epoch.
    pub fn end_time(&self) -> (time: i64)
        ensures
            time == self@.end_time,
            self@.start_time <= time,
    {
        proof {
            use_type_invariant(self);
        }
        self.end_time
    }

    /// What the network client said.
    pub fn error(&self) -> (error: &str)
        ensures
            error@ == self@.error,
    {
        self.error.as_str()
    }

    /// What to show for the failure: that the request failed, and the
    /// network client's words.
    pub fn message(&self) -> (text: String)
        ensures
            text@ == "Request failed: "@ + self@.error,
    {
        let mut text = "Request failed: ".to_owned();
        text.append(self.error.as_str());
        text
    }
}

} // verus!
