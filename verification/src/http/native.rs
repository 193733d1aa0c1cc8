//! The network client library's part in a build. Everything here is taken
//! on trust: the contracts say what `reqwest`, `url`, `http` and `indexmap`
//! do, and no proof stands behind them.

use crate::http::models::{Url, UrlView};
use crate::util::with_entry;
use indexmap::IndexMap;
use reqwest::Client;
use vstd::prelude::*;

verus! {

/// `reqwest::Client`, a shared handle on a connection pool. Nothing of what
/// is inside it is visible here.
#[verifier::external_type_specification]
#[verifier::external_body]
pub struct ExClient(reqwest::Client);

/// `indexmap::IndexMap`, a map that keeps its entries in insertion order.
#[verifier::external_type_specification]
#[verifier::external_body]
#[verifier::reject_recursive_types(K)]
#[verifier::reject_recursive_types(V)]
#[verifier::reject_recursive_types(S)]
pub struct ExIndexMap<K, V, S>(indexmap::IndexMap<K, V, S>);

/// The entries of a map of strings, in the map's order.
pub uninterp spec fn entries(map: IndexMap<String, String>) -> Seq<(Seq<char>, Seq<char>)>;

/// `IndexMap::new`. The new map holds no entry.
#[verifier::external_body]
pub(crate) fn new_map() -> (map: IndexMap<String, String>)
    ensures
        entries(map) == Seq::<(Seq<char>, Seq<char>)>::empty(),
{
    IndexMap::new()
}

/// `IndexMap::insert`. A key that the map holds keeps its place in the
/// order and gets the new value; another key is added last.
#[verifier::external_body]
pub(crate) fn insert_entry(map: &mut IndexMap<String, String>, key: String, value: String)
    ensures
        entries(*final(map)) == with_entry(entries(*old(map)), key@, value@),
{
    map.insert(key, value);
}

/// Whether the client accepts whatever certificate a server shows, valid
/// or not.
pub uninterp spec fn accepts_any_certificate(client: Client) -> bool;

/// What the client sends as `User-Agent` with a request that names none.
pub uninterp spec fn user_agent_of(client: Client) -> Seq<char>;

/// `reqwest::ClientBuilder::build`, after `user_agent` and
/// `danger_accept_invalid_certs`. Whether a client can be made depends on
/// the machine, so success is not promised; a failure comes back as the
/// builder's message. A client that is made has the user agent that was
/// given, and validates certificates exactly when it was not told to
/// accept invalid ones.
#[verifier::external_body]
pub(crate) fn new_client(user_agent: &str, accept_invalid_certs: bool) -> (client: Result<
    Client,
    String,
>)
    ensures
        client matches Ok(made) ==> accepts_any_certificate(made) == accept_invalid_certs,
        client matches Ok(made) ==> user_agent_of(made) == user_agent@,
{
    Client::builder()
        .user_agent(user_agent)
        .danger_accept_invalid_certs(accept_invalid_certs)
        .build()
        .map_err(|error| error.to_string())
}

/// `Clone::clone` of `reqwest::Client`. The clone is a handle on the same
/// client.
#[verifier::external_body]
pub(crate) fn share_client(client: &Client) -> (shared: Client)
    ensures
        shared == *client,
{
    client.clone()
}

pub open spec fn url_outcome(result: Result<Url, String>) -> Result<UrlView, Seq<char>> {
    match result {
        Ok(url) => Ok(url@),
        Err(message) => Err(message@),
    }
}

/// What `Url::parse` makes of a text: the URL, or the parser's message.
pub uninterp spec fn parsed_url(input: Seq<char>) -> Result<UrlView, Seq<char>>;

/// `Url::parse`. The result is a function of the text alone. Of a URL the
/// text is what `as_str` gives and the host what `host_str` gives; of an
/// error, what it displays.
#[verifier::external_body]
pub(crate) fn parse_url(input: &str) -> (result: Result<Url, String>)
    ensures
        url_outcome(result) == parsed_url(input@),
{
    match reqwest::Url::parse(input) {
        Ok(url) => Ok(
            Url::from_parts(url.as_str().to_owned(), url.host_str().map(str::to_owned)),
        ),
        Err(error) => Err(error.to_string()),
    }
}

pub struct RequestHeadView {
    pub url: UrlView,
    pub authorization: Seq<Seq<u8>>,
}

/// What the client's request builder settles before headers and body are
/// attached: the URL to send to, and the values of the `authorization`
/// header that it has set itself.
pub struct RequestHead {
    pub url: Url,
    pub authorization: Vec<Vec<u8>>,
}

impl View for RequestHead {
    type V = RequestHeadView;

    open spec fn view(&self) -> RequestHeadView {
        RequestHeadView { url: self.url@, authorization: self.authorization.deep_view() }
    }
}

pub open spec fn head_outcome(result: Result<RequestHead, String>) -> Result<
    RequestHeadView,
    Seq<char>,
> {
    match result {
        Ok(head) => Ok(head@),
        Err(message) => Err(message@),
    }
}

/// `head` with one more `authorization` value, after those it has.
pub open spec fn authorized(
    head: Result<RequestHeadView, Seq<char>>,
    value: Seq<u8>,
) -> Result<RequestHeadView, Seq<char>> {
    match head {
        Ok(head) => Ok(
            RequestHeadView { url: head.url, authorization: head.authorization.push(value) },
        ),
        Err(message) => Err(message),
    }
}

/// What the client's request builder makes of a URL and query pairs: the
/// URL with the pairs encoded into its query, and the `authorization` value
/// that stands for credentials written into the URL; or the message of the
/// builder's refusal.
pub uninterp spec fn request_head(url: Seq<char>, query: Seq<(Seq<char>, Seq<char>)>) -> Result<
    RequestHeadView,
    Seq<char>,
>;

/// `Client::get`, `RequestBuilder::query`, `RequestBuilder::build`. The URL
/// and the `authorization` values of the built request are a function of
/// the URL text and the query pairs alone; the client and the machine have
/// no part in them.
#[verifier::external_body]
pub(crate) fn begin_request(client: &Client, url: &Url, query: &IndexMap<String, String>) -> (result:
    Result<RequestHead, String>)
    ensures
        head_outcome(result) == request_head(url@.text, entries(*query)),
{
    let pairs: Vec<(&String, &String)> = query.iter().collect();
    match client.get(url.as_str()).query(&pairs).build() {
        Ok(request) => Ok(
            RequestHead {
                url: Url::from_parts(
                    request.url().as_str().to_owned(),
                    request.url().host_str().map(str::to_owned),
                ),
                authorization: request.headers().get_all(reqwest::header::AUTHORIZATION).iter().map(
                    |value| value.as_bytes().to_vec(),
                ).collect(),
            },
        ),
        Err(error) => Err(error.to_string()),
    }
}

/// The text that basic authentication encodes: the username, a colon, and
/// the password where there is one.
pub open spec fn basic_credentials(username: Seq<char>, password: Option<Seq<char>>) -> Seq<char> {
    match password {
        Some(password) => username + ":"@ + password,
        None => username + ":"@,
    }
}

/// The `authorization` value that the client writes for the credentials of
/// basic authentication: the scheme's name and the credentials in base 64.
pub uninterp spec fn basic_authorization(credentials: Seq<char>) -> Seq<u8>;

/// `Client::get`, `RequestBuilder::query`, `RequestBuilder::basic_auth`,
/// `RequestBuilder::build`. As without authentication, with one more
/// `authorization` value after those that the builder set itself. That
/// value is a function of the credentials, which are the username, a colon
/// and the password; no password and an empty one give the same.
#[verifier::external_body]
pub(crate) fn begin_request_basic(
    client: &Client,
    url: &Url,
    query: &IndexMap<String, String>,
    username: &str,
    password: Option<&str>,
) -> (result: Result<RequestHead, String>)
    ensures
        head_outcome(result) == authorized(
            request_head(url@.text, entries(*query)),
            basic_authorization(basic_credentials(username@, password.deep_view())),
        ),
{
    let pairs: Vec<(&String, &String)> = query.iter().collect();
    match client.get(url.as_str()).query(&pairs).basic_auth(username, password).build() {
        Ok(request) => Ok(
            RequestHead {
                url: Url::from_parts(
                    request.url().as_str().to_owned(),
                    request.url().host_str().map(str::to_owned),
                ),
                authorization: request.headers().get_all(reqwest::header::AUTHORIZATION).iter().map(
                    |value| value.as_bytes().to_vec(),
                ).collect(),
            },
        ),
        Err(error) => Err(error.to_string()),
    }
}

/// Whether a header value may hold the byte: a tab, or anything from the
/// space on but the delete character.
pub open spec fn is_header_value_byte(byte: u8) -> bool {
    (byte >= 32 && byte != 127) || byte == 9
}

/// Whether every byte may stand in a header value.
pub open spec fn is_header_value(bytes: Seq<u8>) -> bool {
    forall|i: int| 0 <= i < bytes.len() ==> is_header_value_byte(#[trigger] bytes[i])
}

/// The text of the `authorization` value for a bearer token.
pub open spec fn bearer_authorization(token: Seq<char>) -> Seq<char> {
    "Bearer "@ + token
}

/// `Client::get`, `RequestBuilder::query`, `RequestBuilder::bearer_auth`,
/// `RequestBuilder::build`. As without authentication, with one more
/// `authorization` value after those that the builder set itself: the word
/// `Bearer`, a space and the token. A token that makes no header value has
/// the builder refuse, and is left out here.
#[verifier::external_body]
pub(crate) fn begin_request_bearer(
    client: &Client,
    url: &Url,
    query: &IndexMap<String, String>,
    token: &str,
) -> (result: Result<RequestHead, String>)
    requires
        is_header_value(vstd::utf8::encode_utf8(bearer_authorization(token@))),
    ensures
        head_outcome(result) == authorized(
            request_head(url@.text, entries(*query)),
            vstd::utf8::encode_utf8(bearer_authorization(token@)),
        ),
{
    let pairs: Vec<(&String, &String)> = query.iter().collect();
    match client.get(url.as_str()).query(&pairs).bearer_auth(token).build() {
        Ok(request) => Ok(
            RequestHead {
                url: Url::from_parts(
                    request.url().as_str().to_owned(),
                    request.url().host_str().map(str::to_owned),
                ),
                authorization: request.headers().get_all(reqwest::header::AUTHORIZATION).iter().map(
                    |value| value.as_bytes().to_vec(),
                ).collect(),
            },
        ),
        Err(error) => Err(error.to_string()),
    }
}

/// Whether a header name may hold the character: a letter or digit of
/// ASCII, or one of the signs that HTTP allows in a token.
pub open spec fn is_header_name_char(c: char) -> bool {
    ||| 'a' <= c && c <= 'z'
    ||| 'A' <= c && c <= 'Z'
    ||| '0' <= c && c <= '9'
    ||| c == '!'
    ||| c == '#'
    ||| c == '$'
    ||| c == '%'
    ||| c == '&'
    ||| c == '\''
    ||| c == '*'
    ||| c == '+'
    ||| c == '-'
    ||| c == '.'
    ||| c == '^'
    ||| c == '_'
    ||| c == '`'
    ||| c == '|'
    ||| c == '~'
}

/// The character in lower case, where it is a capital letter of ASCII.
pub open spec fn lower_case(c: char) -> char {
    if 'A' <= c && c <= 'Z' {
        ((c as u8) + 32) as char
    } else {
        c
    }
}

/// The text with every capital letter of ASCII in lower case.
pub open spec fn lower_cased(text: Seq<char>) -> Seq<char> {
    Seq::new(text.len(), |i: int| lower_case(text[i]))
}

/// The longest header name, in bytes.
pub const MAX_HEADER_NAME: usize = 65535;

/// Whether the text is a header name: not empty, not too long, and made
/// of characters that a header name may hold.
pub open spec fn is_header_name(name: Seq<char>) -> bool {
    &&& 0 < name.len() <= MAX_HEADER_NAME
    &&& forall|i: int| 0 <= i < name.len() ==> is_header_name_char(#[trigger] name[i])
}

/// What the name of a header is encoded to: the name in lower case, or
/// nothing where the text is no header name.
pub open spec fn header_name(name: Seq<char>) -> Option<Seq<char>> {
    if is_header_name(name) {
        Some(lower_cased(name))
    } else {
        None
    }
}

/// `HeaderName::try_from`. A text that is not empty, no longer than the
/// limit and made of token characters makes a name, which `as_str` gives
/// in lower case; any other text has the conversion fail.
#[verifier::external_body]
pub(crate) fn encode_header_name(name: &str) -> (encoded: Option<String>)
    ensures
        encoded.deep_view() == header_name(name@),
{
    reqwest::header::HeaderName::try_from(name).ok().map(|name| name.as_str().to_owned())
}

/// `HeaderValue::try_from`. Bytes that may all stand in a header value make
/// a value of just those bytes; any other byte has the conversion fail.
#[verifier::external_body]
pub(crate) fn encode_header_value(value: Vec<u8>) -> (encoded: Option<Vec<u8>>)
    ensures
        encoded.deep_view() == if is_header_value(value@) {
            Some(value@)
        } else {
            None
        },
{
    reqwest::header::HeaderValue::try_from(value).ok().map(|value| value.as_bytes().to_vec())
}

} // verus!
