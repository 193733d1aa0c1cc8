//! The request pipeline. A recipe starts a build as a seed; the build ends
//! in a ticket or in a build error; sending the ticket ends in an exchange
//! or in a request error.
//!
//! The pipeline touches neither the renderer nor the network. A build says
//! what is to be rendered, and is finished with what the renderer answered;
//! a ticket is sent by the caller, and concluded with what came back.

pub mod facets;
pub mod models;
pub mod native;
pub mod plan;

use crate::collection::{Authentication, ProfileId};
use crate::config::Config;
use crate::http::facets::{
    authentication_facet, body_facet, failure, header_facet, optional_bytes, optional_text,
    query_facet, query_items, text_at, url_facet,
};
use crate::http::models::{
    BuildError, BuildErrorKind, BuildErrorView, Exchange, ExchangeView, HeaderView, RequestBuildError,
    RequestBuildErrorView, RequestError, RequestErrorView, RequestRecord, RequestRecordView,
    RequestSeed, ResponseRecord, Url, UrlView, later,
};
use crate::http::native::{
    accepts_any_certificate, authorized, basic_authorization, basic_credentials, bearer_authorization, begin_request,
    begin_request_basic, begin_request_bearer, encode_header_value, entries, is_header_value,
    new_client, request_head, share_client, user_agent_of, RequestHead, RequestHeadView,
};
use crate::http::plan::{contains_name, lemma_enabled_all, Rendered};
use crate::util::{copy_bytes, lemma_bytes_view};
use indexmap::IndexMap;
use reqwest::Client;
use vstd::prelude::*;

verus! {

/// What the engine's clients call themselves.
pub const USER_AGENT: &'static str = "slumber/0.1.0";

/// Which of the engine's two clients sends a request.
#[derive(Clone, Copy, Debug, PartialEq, Eq, Structural)]
pub enum ClientKind {
    /// The client that validates TLS certificates.
    Standard,
    /// The client that accepts any TLS certificate.
    Danger,
}

/// The client for a host: the one that accepts any certificate for just
/// the hosts named, letter for letter, and the validating one for all
/// others. A URL without a host, or with an empty one, has the validating
/// client, whatever is named.
pub open spec fn client_kind_for(danger_hostnames: Seq<Seq<char>>, host: Option<Seq<char>>) -> ClientKind {
    match host {
        Some(host) => if host.len() > 0 && danger_hostnames.contains(host) {
            ClientKind::Danger
        } else {
            ClientKind::Standard
        },
        None => ClientKind::Standard,
    }
}

/// The name under which authentication is sent.
pub open spec fn authorization_name() -> Seq<char> {
    "authorization"@
}

/// Whether one of the headers is an `authorization` header.
pub open spec fn sets_authorization(headers: Seq<HeaderView>) -> bool {
    exists|i: int| 0 <= i < headers.len() && (#[trigger] headers[i]).0 == authorization_name()
}

/// A refusal of the client's builder as a build error.
pub open spec fn refused(head: Result<RequestHeadView, Seq<char>>) -> Result<
    RequestHeadView,
    BuildErrorView,
> {
    match head {
        Ok(head) => Ok(head),
        Err(cause) => Err(failure(BuildErrorKind::Request, Seq::empty(), cause)),
    }
}

/// What the client's builder makes of the URL, the query and the
/// authentication. A bearer token that makes no header value fails as the
/// value of the `authorization` header, unless the builder refuses the URL
/// already.
pub open spec fn request_outcome(
    url: Seq<char>,
    query: Seq<(Seq<char>, Seq<char>)>,
    authentication: Option<Authentication<Seq<char>>>,
) -> Result<RequestHeadView, BuildErrorView> {
    match authentication {
        None => refused(request_head(url, query)),
        Some(Authentication::Basic { username, password }) => refused(
            authorized(
                request_head(url, query),
                basic_authorization(basic_credentials(username, password)),
            ),
        ),
        Some(Authentication::Bearer(token)) => {
            let value = vstd::utf8::encode_utf8(bearer_authorization(token));
            if is_header_value(value) {
                refused(authorized(request_head(url, query), value))
            } else {
                match refused(request_head(url, query)) {
                    Err(error) => Err(error),
                    Ok(_) => Err(
                        failure(BuildErrorKind::HeaderValue, authorization_name(), Seq::empty()),
                    ),
                }
            }
        },
    }
}

/// Where the `authorization` values that are sent begin among those of
/// the client's builder. All are sent, unless a header of the recipe is an
/// `authorization` header: it takes the place of the value that stands for
/// credentials in the URL, and only the value of the request's own
/// authentication, the last, is sent beside it.
pub open spec fn first_sent(count: int, authenticated: bool, overridden: bool) -> int {
    if !overridden {
        0
    } else if authenticated && count > 0 {
        count - 1
    } else {
        count
    }
}

/// `authorization` headers of the values.
pub open spec fn authorization_headers(values: Seq<Seq<u8>>) -> Seq<HeaderView> {
    Seq::new(values.len(), |i: int| (authorization_name(), values[i]))
}

/// The headers that are sent: those of the recipe, then the
/// `authorization` headers that the client's builder made.
pub open spec fn sent_headers(headers: Seq<HeaderView>, values: Seq<Seq<u8>>, authenticated: bool) -> Seq<
    HeaderView,
> {
    headers + authorization_headers(
        values.skip(first_sent(values.len() as int, authenticated, sets_authorization(headers))),
    )
}

/// What the options put in place of something of the recipe, where they
/// hold anything, else the recipe's own.
pub open spec fn chosen<T>(replacement: Option<T>, own: Option<T>) -> Option<T> {
    match replacement {
        Some(_) => replacement,
        None => own,
    }
}

/// What a build resolves to, beside what the seed says of it.
pub struct AssembledView {
    pub host: Option<Seq<char>>,
    pub url: UrlView,
    pub headers: Seq<HeaderView>,
    pub body: Option<Seq<u8>>,
}

impl RequestSeed {
    /// What the build resolves to. The facets are made in the order URL,
    /// query, headers, authentication, body, and the first failure is the
    /// build's; then the client's builder encodes query and authentication.
    /// `host` is the host of the URL as the recipe gives it, by which the
    /// client is chosen.
    pub open spec fn assembled(&self, rendered: Rendered) -> Result<AssembledView, BuildErrorView> {
        match url_facet(optional_text(rendered.url)) {
            Err(error) => Err(error),
            Ok(url) => match query_facet(self.enabled_query(), rendered.query@) {
                Err(error) => Err(error),
                Ok(query) => match header_facet(self.enabled_headers(), rendered.headers@) {
                    Err(error) => Err(error),
                    Ok(headers) => match authentication_facet(
                        self.recipe.authentication.deep_view(),
                        rendered.authentication@,
                    ) {
                        Err(error) => Err(error),
                        Ok(own) => match body_facet(self.recipe.body is Some, rendered.body) {
                            Err(error) => Err(error),
                            Ok(body) => {
                                let authentication = chosen(
                                    self.options.authentication_override.deep_view(),
                                    own,
                                );
                                match request_outcome(url.text, query, authentication) {
                                    Err(error) => Err(error),
                                    Ok(head) => Ok(
                                        AssembledView {
                                            host: url.host,
                                            url: head.url,
                                            headers: sent_headers(
                                                headers,
                                                head.authorization,
                                                authentication is Some,
                                            ),
                                            body: chosen(self.options.body_override.deep_view(), body),
                                        },
                                    ),
                                }
                            },
                        },
                    },
                },
            },
        }
    }

    /// The record of the build, or why there is none.
    pub open spec fn record(&self, profile_id: Option<Seq<char>>, rendered: Rendered) -> Result<
        RequestRecordView,
        RequestBuildErrorView,
    > {
        match self.assembled(rendered) {
            Ok(parts) => Ok(
                RequestRecordView {
                    id: self.id,
                    profile_id,
                    recipe_id: self.recipe.id@,
                    method: self.recipe.method,
                    url: parts.url,
                    headers: parts.headers,
                    body: parts.body,
                },
            ),
            Err(error) => Err(self.build_error(profile_id, error)),
        }
    }

    /// The failure of this build on `error`.
    pub open spec fn build_error(&self, profile_id: Option<Seq<char>>, error: BuildErrorView) -> RequestBuildErrorView {
        RequestBuildErrorView { id: self.id, recipe_id: self.recipe.id@, profile_id, error }
    }

    /// The URL that the build resolves to, made of the URL and query
    /// facets alone.
    pub open spec fn resolved_url(&self, profile_id: Option<Seq<char>>, rendered: Rendered) -> Result<
        UrlView,
        RequestBuildErrorView,
    > {
        match url_facet(optional_text(rendered.url)) {
            Err(error) => Err(self.build_error(profile_id, error)),
            Ok(url) => match query_facet(self.enabled_query(), rendered.query@) {
                Err(error) => Err(self.build_error(profile_id, error)),
                Ok(query) => match refused(request_head(url.text, query)) {
                    Err(error) => Err(self.build_error(profile_id, error)),
                    Ok(head) => Ok(head.url),
                },
            },
        }
    }

    /// The body that the build resolves to, made of the body facet alone:
    /// the body of the options where they hold one, else the recipe's.
    pub open spec fn resolved_body(&self, profile_id: Option<Seq<char>>, rendered: Rendered) -> Result<
        Option<Seq<u8>>,
        RequestBuildErrorView,
    > {
        match body_facet(self.recipe.body is Some, rendered.body) {
            Err(error) => Err(self.build_error(profile_id, error)),
            Ok(body) => Ok(chosen(self.options.body_override.deep_view(), body)),
        }
    }
}

/// A disabled query parameter or header is as good as absent: the build
/// of a recipe is the build of the recipe without it. `bare` is the seed
/// whose recipe holds just the query parameters and headers that `seed`
/// sends, with nothing disabled, and is like `seed` in everything else.
pub proof fn lemma_disabled_is_absent(
    seed: RequestSeed,
    bare: RequestSeed,
    profile_id: Option<Seq<char>>,
    rendered: Rendered,
)
    requires
        bare.id == seed.id,
        bare.recipe.id@ == seed.recipe.id@,
        bare.recipe.method == seed.recipe.method,
        bare.recipe.query.deep_view() == seed.enabled_query(),
        bare.recipe.headers.deep_view() == seed.enabled_headers(),
        bare.options.disabled_query_parameters.deep_view() == Seq::<Seq<char>>::empty(),
        bare.options.disabled_headers.deep_view() == Seq::<Seq<char>>::empty(),
        bare.recipe.authentication.deep_view() == seed.recipe.authentication.deep_view(),
        bare.recipe.body is Some <==> seed.recipe.body is Some,
        bare.options.authentication_override.deep_view() == seed.options.authentication_override.deep_view(),
        bare.options.body_override.deep_view() == seed.options.body_override.deep_view(),
    ensures
        bare.record(profile_id, rendered) == seed.record(profile_id, rendered),
        bare.resolved_url(profile_id, rendered) == seed.resolved_url(profile_id, rendered),
        bare.full_plan().query == seed.full_plan().query,
        bare.full_plan().headers == seed.full_plan().headers,
{
    lemma_enabled_all(seed.enabled_query());
    lemma_enabled_all(seed.enabled_headers());
}

/// Building the URL reads what was rendered for the URL and the query, and
/// nothing else: two answers of the renderer that agree on those give the
/// same URL or the same failure, whatever they hold for headers,
/// authentication and body.
pub proof fn lemma_url_reads_url_and_query(
    seed: RequestSeed,
    profile_id: Option<Seq<char>>,
    one: Rendered,
    other: Rendered,
)
    requires
        optional_text(one.url) == optional_text(other.url),
        forall|i: int| text_at(one.query@, i) == text_at(other.query@, i),
    ensures
        seed.resolved_url(profile_id, one) == seed.resolved_url(profile_id, other),
{
    assert(query_items(seed.enabled_query(), one.query@)
        =~= query_items(seed.enabled_query(), other.query@));
}

/// Building the body reads what was rendered for the body, and nothing
/// else.
pub proof fn lemma_body_reads_body(
    seed: RequestSeed,
    profile_id: Option<Seq<char>>,
    one: Rendered,
    other: Rendered,
)
    requires
        optional_bytes(one.body) == optional_bytes(other.body),
    ensures
        seed.resolved_body(profile_id, one) == seed.resolved_body(profile_id, other),
{
}

/// Basic authentication without a password is basic authentication with
/// an empty password: the credentials are the username and a colon, and
/// the request is the same.
pub proof fn lemma_no_password_is_empty(
    url: Seq<char>,
    query: Seq<(Seq<char>, Seq<char>)>,
    username: Seq<char>,
)
    ensures
        basic_credentials(username, None) == username + ":"@,
        basic_credentials(username, Some(Seq::empty())) == username + ":"@,
        request_outcome(url, query, Some(Authentication::Basic { username, password: None }))
            == request_outcome(
            url,
            query,
            Some(Authentication::Basic { username, password: Some(Seq::empty()) }),
        ),
{
    assert(username + ":"@ + Seq::<char>::empty() =~= username + ":"@);
}

/// A recipe with basic authentication and no password template renders
/// to a username without a password, whatever was rendered beyond the
/// username; the missing password is no failure.
pub proof fn lemma_missing_password(
    username: Seq<char>,
    outcomes: Seq<Result<String, String>>,
)
    requires
        text_at(outcomes, 0) is Ok,
    ensures
        authentication_facet(
            Some(Authentication::Basic { username, password: None }),
            outcomes,
        ) == Ok::<Option<Authentication<Seq<char>>>, BuildErrorView>(
            Some(
                Authentication::Basic {
                    username: text_at(outcomes, 0)->Ok_0,
                    password: None,
                },
            ),
        ),
{
}

/// A URL without a host, or with an empty one, has the validating client,
/// whichever hosts are named; any other URL has the client that accepts
/// any certificate exactly when its host is named.
pub proof fn lemma_client_by_host(danger_hostnames: Seq<Seq<char>>, host: Seq<char>)
    ensures
        client_kind_for(danger_hostnames, None) == ClientKind::Standard,
        client_kind_for(danger_hostnames, Some(Seq::empty())) == ClientKind::Standard,
        host.len() > 0 ==> (client_kind_for(danger_hostnames, Some(host)) == ClientKind::Danger
            <==> danger_hostnames.contains(host)),
{
}

/// In an engine whose clients are what their kinds say, the client for a
/// URL accepts any certificate exactly when the URL's host is one of those
/// named for it; the client for every other URL, and for one without a
/// host, validates certificates. Either goes by the engine's user agent.
pub proof fn lemma_certificates_by_host(engine: HttpEngine, host: Option<Seq<char>>)
    requires
        engine.keeps_policy(),
    ensures
        accepts_any_certificate(
            engine.client(client_kind_for(engine.danger_hostnames(), host)),
        ) <==> (host matches Some(name) && name.len() > 0 && engine.danger_hostnames().contains(
            name,
        )),
        user_agent_of(engine.client(client_kind_for(engine.danger_hostnames(), host)))
            == USER_AGENT@,
{
}

/// The times of an exchange and of a request error are in order for
/// whatever the clock gave.
pub proof fn lemma_times_in_order(start_time: i64, end_time: i64)
    ensures
        start_time <= later(start_time, end_time),
        start_time <= end_time ==> later(start_time, end_time) == end_time,
{
}

/// A request that is built and not yet sent, with the client that is to
/// send it. Sending uses the ticket up.
#[derive(Debug)]
pub struct RequestTicket {
    pub record: RequestRecord,
    pub kind: ClientKind,
    pub client: Client,
}

/// What a build made before it became a record.
struct Assembled {
    kind: ClientKind,
    url: Url,
    headers: Vec<(String, Vec<u8>)>,
    body: Option<Vec<u8>>,
}

/// The engine of all HTTP work: two clients, and the names of the hosts
/// for which certificates are not validated. It is made once and never
/// changes.
#[derive(Debug)]
pub struct HttpEngine {
    client: Client,
    danger_client: Client,
    danger_hostnames: Vec<String>,
}

impl HttpEngine {
    /// The hosts for which certificates are not validated.
    pub closed spec fn danger_hostnames(&self) -> Seq<Seq<char>> {
        self.danger_hostnames.deep_view()
    }

    /// The engine's client of a kind.
    pub closed spec fn client(&self, kind: ClientKind) -> Client {
        match kind {
            ClientKind::Standard => self.client,
            ClientKind::Danger => self.danger_client,
        }
    }

    /// Whether the engine's clients are what their kinds say: the standard
    /// client validates certificates, the danger client accepts any, and
    /// both go by the same user agent.
    pub open spec fn keeps_policy(&self) -> bool {
        &&& !accepts_any_certificate(self.client(ClientKind::Standard))
        &&& accepts_any_certificate(self.client(ClientKind::Danger))
        &&& user_agent_of(self.client(ClientKind::Standard)) == USER_AGENT@
        &&& user_agent_of(self.client(ClientKind::Danger)) == USER_AGENT@
    }

    /// An engine of two clients and the hosts that `config` names.
    pub fn with_clients(client: Client, danger_client: Client, config: &Config) -> (engine: HttpEngine)
        ensures
            engine.danger_hostnames() == config.ignore_certificate_hosts.deep_view(),
            engine.client(ClientKind::Standard) == client,
            engine.client(ClientKind::Danger) == danger_client,
    {
        let mut danger_hostnames: Vec<String> = Vec::new();
        let mut i: usize = 0;
        while i < config.ignore_certificate_hosts.len()
            invariant
                i <= config.ignore_certificate_hosts.len(),
                danger_hostnames.deep_view() == config.ignore_certificate_hosts.deep_view().take(
                    i as int,
                ),
            decreases config.ignore_certificate_hosts.len() - i,
        {
            let ghost before = danger_hostnames.deep_view();
            danger_hostnames.push(config.ignore_certificate_hosts[i].clone());
            assert(danger_hostnames.deep_view() =~= before.push(
                config.ignore_certificate_hosts[i as int]@,
            ));
            assert(config.ignore_certificate_hosts.deep_view().take(i as int + 1)
                =~= config.ignore_certificate_hosts.deep_view().take(i as int).push(
                config.ignore_certificate_hosts[i as int]@,
            ));
            i += 1;
        }
        assert(config.ignore_certificate_hosts.deep_view().take(
            config.ignore_certificate_hosts.len() as int,
        ) =~= config.ignore_certificate_hosts.deep_view());
        HttpEngine { client, danger_client, danger_hostnames }
    }

    /// Makes the engine for the life of the program: a client that
    /// validates certificates and one that does not, both under the same
    /// user agent, and the hosts that `config` names. Where the machine
    /// lets no client be made, the client library's message comes back.
    pub fn new(config: &Config) -> (result: Result<HttpEngine, String>)
        ensures
            result matches Ok(engine) ==> engine.danger_hostnames()
                == config.ignore_certificate_hosts.deep_view(),
            result matches Ok(engine) ==> engine.keeps_policy(),
    {
        match new_client(USER_AGENT, false) {
            Err(message) => Err(message),
            Ok(client) => match new_client(USER_AGENT, true) {
                Err(message) => Err(message),
                Ok(danger_client) => Ok(HttpEngine::with_clients(client, danger_client, config)),
            },
        }
    }

    /// Which client sends a request to the URL.
    pub fn client_kind(&self, url: &Url) -> (kind: ClientKind)
        ensures
            kind == client_kind_for(self.danger_hostnames(), url@.host),
    {
        match url.host_str() {
            Some(host) => {
                if host.unicode_len() > 0 && contains_name(&self.danger_hostnames, &host.to_owned()) {
                    ClientKind::Danger
                } else {
                    ClientKind::Standard
                }
            },
            None => ClientKind::Standard,
        }
    }

    /// The client that sends a request to the URL: the one that accepts
    /// any certificate where the URL's host is one of those named for it,
    /// the validating one for every other URL, and for one without a host.
    pub fn get_client(&self, url: &Url) -> (client: &Client)
        ensures
            *client == self.client(client_kind_for(self.danger_hostnames(), url@.host)),
    {
        match self.client_kind(url) {
            ClientKind::Danger => &self.danger_client,
            ClientKind::Standard => &self.client,
        }
    }

    /// Has the client's builder encode the query and the authentication.
    fn begin(
        &self,
        url: &Url,
        query: &IndexMap<String, String>,
        authentication: &Option<Authentication<String>>,
    ) -> (result: Result<RequestHead, BuildError>)
        ensures
            match result {
                Ok(head) => request_outcome(url@.text, entries(*query), authentication.deep_view())
                    == Ok::<RequestHeadView, BuildErrorView>(head@),
                Err(error) => request_outcome(
                    url@.text,
                    entries(*query),
                    authentication.deep_view(),
                ) == Err::<RequestHeadView, BuildErrorView>(error@),
            },
    {
        let client = self.get_client(url);
        let begun = match authentication {
            None => begin_request(client, url, query),
            Some(Authentication::Basic { username, password }) => {
                let password = match password {
                    Some(password) => Some(password.as_str()),
                    None => None,
                };
                begin_request_basic(client, url, query, username.as_str(), password)
            },
            Some(Authentication::Bearer(token)) => {
                let mut value = "Bearer ".to_owned();
                value.append(token.as_str());
                match encode_header_value(value.as_str().as_bytes_vec()) {
                    Some(_) => begin_request_bearer(client, url, query, token.as_str()),
                    None => match begin_request(client, url, query) {
                        Err(cause) => Err(cause),
                        Ok(_) => {
                            return Err(
                                BuildError::new(
                                    BuildErrorKind::HeaderValue,
                                    "authorization".to_owned(),
                                    String::new(),
                                ),
                            );
                        },
                    },
                }
            },
        };
        match begun {
            Ok(head) => Ok(head),
            Err(cause) => Err(BuildError::new(BuildErrorKind::Request, String::new(), cause)),
        }
    }

    /// Makes every facet and has the request encoded.
    fn assemble(&self, seed: &RequestSeed, rendered: &Rendered) -> (result: Result<
        Assembled,
        BuildError,
    >)
        ensures
            match result {
                Ok(parts) => seed.assembled(*rendered) == Ok::<AssembledView, BuildErrorView>(
                    AssembledView {
                        host: seed.assembled(*rendered)->Ok_0.host,
                        url: parts.url@,
                        headers: parts.headers.deep_view(),
                        body: parts.body.deep_view(),
                    },
                ) && parts.kind == client_kind_for(
                    self.danger_hostnames(),
                    seed.assembled(*rendered)->Ok_0.host,
                ),
                Err(error) => seed.assembled(*rendered) == Err::<AssembledView, BuildErrorView>(
                    error@,
                ),
            },
    {
        let url = seed.recipe.render_url(&rendered.url)?;
        let query = seed.recipe.render_query(&seed.options, &rendered.query)?;
        let headers = seed.recipe.render_headers(&seed.options, &rendered.headers)?;
        let own = seed.recipe.render_authentication(&rendered.authentication)?;
        let body = seed.recipe.render_body(&rendered.body)?;
        let authentication = if seed.options.authentication_override.is_some() {
            &seed.options.authentication_override
        } else {
            &own
        };
        let kind = self.client_kind(&url);
        let head = self.begin(&url, &query, authentication)?;
        let RequestHead { url, authorization } = head;
        let headers = attach_authorization(headers, &authorization, authentication.is_some());
        let body = match &seed.options.body_override {
            Some(replacement) => Some(copy_bytes(replacement)),
            None => body,
        };
        Ok(Assembled { kind, url, headers, body })
    }

    /// Finishes a full build of what the renderer answered for the seed's
    /// plan. The ticket holds the record of the resolved request and the
    /// client for the host of the recipe's URL. A failure names the build,
    /// its recipe and the profile, and the first thing that went wrong.
    pub fn build(&self, seed: RequestSeed, profile_id: Option<ProfileId>, rendered: &Rendered) -> (result:
        Result<RequestTicket, RequestBuildError>)
        ensures
            match result {
                Ok(ticket) => {
                    &&& seed.record(profile_id.deep_view(), *rendered) == Ok::<
                        RequestRecordView,
                        RequestBuildErrorView,
                    >(ticket.record@)
                    &&& ticket.kind == client_kind_for(
                        self.danger_hostnames(),
                        seed.assembled(*rendered)->Ok_0.host,
                    )
                    &&& ticket.client == self.client(ticket.kind)
                },
                Err(failure) => seed.record(profile_id.deep_view(), *rendered) == Err::<
                    RequestRecordView,
                    RequestBuildErrorView,
                >(failure@),
            },
    {
        match self.assemble(&seed, rendered) {
            Ok(parts) => {
                let Assembled { kind, url, headers, body } = parts;
                let client = match kind {
                    ClientKind::Danger => share_client(&self.danger_client),
                    ClientKind::Standard => share_client(&self.client),
                };
                Ok(
                    RequestTicket {
                        record: RequestRecord::new(seed, profile_id, url, headers, body),
                        kind,
                        client,
                    },
                )
            },
            Err(error) => Err(RequestBuildError::new(error, seed, profile_id)),
        }
    }

    /// Finishes a build of the URL alone, with its query. Headers,
    /// authentication and body have no part in it, whatever `rendered`
    /// holds for them.
    pub fn build_url(&self, seed: RequestSeed, profile_id: Option<ProfileId>, rendered: &Rendered) -> (result:
        Result<Url, RequestBuildError>)
        ensures
            match result {
                Ok(url) => seed.resolved_url(profile_id.deep_view(), *rendered) == Ok::<
                    UrlView,
                    RequestBuildErrorView,
                >(url@),
                Err(failure) => seed.resolved_url(profile_id.deep_view(), *rendered) == Err::<
                    UrlView,
                    RequestBuildErrorView,
                >(failure@),
            },
    {
        let url = match seed.recipe.render_url(&rendered.url) {
            Ok(url) => url,
            Err(error) => {
                return Err(RequestBuildError::new(error, seed, profile_id));
            },
        };
        let query = match seed.recipe.render_query(&seed.options, &rendered.query) {
            Ok(query) => query,
            Err(error) => {
                return Err(RequestBuildError::new(error, seed, profile_id));
            },
        };
        match self.begin(&url, &query, &None) {
            Ok(head) => Ok(head.url),
            Err(error) => Err(RequestBuildError::new(error, seed, profile_id)),
        }
    }

    /// Finishes a build of the body alone. URL, query, headers and
    /// authentication have no part in it, whatever `rendered` holds for
    /// them.
    pub fn build_body(&self, seed: RequestSeed, profile_id: Option<ProfileId>, rendered: &Rendered) -> (result:
        Result<Option<Vec<u8>>, RequestBuildError>)
        ensures
            match result {
                Ok(body) => seed.resolved_body(profile_id.deep_view(), *rendered) == Ok::<
                    Option<Seq<u8>>,
                    RequestBuildErrorView,
                >(body.deep_view()),
                Err(failure) => seed.resolved_body(profile_id.deep_view(), *rendered) == Err::<
                    Option<Seq<u8>>,
                    RequestBuildErrorView,
                >(failure@),
            },
    {
        match seed.recipe.render_body(&rendered.body) {
            Ok(body) => Ok(
                match &seed.options.body_override {
                    Some(replacement) => Some(copy_bytes(replacement)),
                    None => body,
                },
            ),
            Err(error) => Err(RequestBuildError::new(error, seed, profile_id)),
        }
    }
}

impl Clone for HttpEngine {
    /// Another handle on the same engine: the clone shares both clients
    /// and names the same hosts.
    fn clone(&self) -> (copy: HttpEngine)
        ensures
            copy.danger_hostnames() == self.danger_hostnames(),
            copy.client(ClientKind::Standard) == self.client(ClientKind::Standard),
            copy.client(ClientKind::Danger) == self.client(ClientKind::Danger),
    {
        let mut danger_hostnames: Vec<String> = Vec::new();
        let mut i: usize = 0;
        while i < self.danger_hostnames.len()
            invariant
                i <= self.danger_hostnames.len(),
                danger_hostnames.deep_view() == self.danger_hostnames.deep_view().take(i as int),
            decreases self.danger_hostnames.len() - i,
        {
            let ghost before = danger_hostnames.deep_view();
            danger_hostnames.push(self.danger_hostnames[i].clone());
            assert(danger_hostnames.deep_view() =~= before.push(self.danger_hostnames[i as int]@));
            assert(self.danger_hostnames.deep_view().take(i as int + 1)
                =~= self.danger_hostnames.deep_view().take(i as int).push(
                self.danger_hostnames[i as int]@,
            ));
            i += 1;
        }
        assert(self.danger_hostnames.deep_view().take(self.danger_hostnames.len() as int)
            =~= self.danger_hostnames.deep_view());
        HttpEngine {
            client: share_client(&self.client),
            danger_client: share_client(&self.danger_client),
            danger_hostnames,
        }
    }
}

/// Puts the `authorization` values that the client's builder made behind
/// the recipe's headers. Where a header of the recipe is an `authorization`
/// header, it stands for whatever the URL held of credentials, and of the
/// builder's values only the last is sent, and only where the request
/// authenticates: that last value is the one of its authentication.
pub fn attach_authorization(
    headers: Vec<(String, Vec<u8>)>,
    authorization: &Vec<Vec<u8>>,
    authenticated: bool,
) -> (sent: Vec<(String, Vec<u8>)>)
    ensures
        sent.deep_view() == sent_headers(
            headers.deep_view(),
            authorization.deep_view(),
            authenticated,
        ),
{
    let mut headers = headers;
    let ghost recipe_headers = headers.deep_view();
    let overridden = names_authorization(&headers);
    let count = authorization.len();
    let first = if !overridden {
        0
    } else if authenticated && count > 0 {
        count - 1
    } else {
        count
    };
    let name = "authorization".to_owned();
    let mut i: usize = first;
    assert(authorization.deep_view().skip(first as int).take(0) =~= Seq::<Seq<u8>>::empty());
    assert(headers.deep_view() =~= recipe_headers + authorization_headers(Seq::<Seq<u8>>::empty()));
    while i < count
        invariant
            first <= i <= count,
            count == authorization.len(),
            name@ == authorization_name(),
            headers.deep_view() == recipe_headers + authorization_headers(
                authorization.deep_view().skip(first as int).take(i - first),
            ),
        decreases count - i,
    {
        let ghost before = headers.deep_view();
        let ghost values = authorization.deep_view().skip(first as int);
        let value = copy_bytes(&authorization[i]);
        headers.push((name.clone(), value));
        assert(values.take(i - first + 1) =~= values.take(i - first).push(authorization[i as int]@))
            by {
            lemma_bytes_view(authorization[i as int]);
        }
        assert(headers.deep_view() =~= before.push(
            (authorization_name(), authorization[i as int]@),
        ));
        assert(headers.deep_view() =~= recipe_headers + authorization_headers(
            values.take(i - first + 1),
        ));
        i += 1;
    }
    assert(authorization.deep_view().skip(first as int).take(count - first)
        =~= authorization.deep_view().skip(first as int));
    headers
}

/// Whether one of the headers is an `authorization` header.
fn names_authorization(headers: &Vec<(String, Vec<u8>)>) -> (found: bool)
    ensures
        found == sets_authorization(headers.deep_view()),
{
    let name = "authorization".to_owned();
    let mut i: usize = 0;
    while i < headers.len()
        invariant
            i <= headers.len(),
            name@ == authorization_name(),
            forall|k: int| 0 <= k < i ==> (#[trigger] headers.deep_view()[k]).0 != authorization_name(),
        decreases headers.len() - i,
    {
        if headers[i].0 == name {
            assert(headers.deep_view()[i as int].0 == authorization_name());
            return true;
        }
        i += 1;
    }
    false
}

impl RequestTicket {
    /// Concludes the sending of the ticket with what came of it. The caller
    /// reads `start_time` when it begins to send, not when the ticket is
    /// made, and `end_time` when the response is complete or the attempt is
    /// given up, both in microseconds since the Unix epoch. A response makes
    /// an exchange; a failure of the network makes a request error that
    /// still holds the request as it was built. Either holds both times,
    /// and an end before the start is taken for the start.
    pub fn send(self, start_time: i64, end_time: i64, outcome: Result<ResponseRecord, String>) -> (result:
        Result<Exchange, RequestError>)
        ensures
            match outcome {
                Ok(response) => result is Ok && result->Ok_0@ == (ExchangeView {
                    id: self.record.id,
                    request: self.record@,
                    response: response@,
                    start_time,
                    end_time: later(start_time, end_time),
                }),
                Err(error) => result is Err && result->Err_0@ == (RequestErrorView {
                    request: self.record@,
                    start_time,
                    end_time: later(start_time, end_time),
                    error: error@,
                }),
            },
    {
        match outcome {
            Ok(response) => Ok(Exchange::new(self.record, response, start_time, end_time)),
            Err(error) => Err(RequestError::new(self.record, start_time, end_time, error)),
        }
    }
}

} // verus!
