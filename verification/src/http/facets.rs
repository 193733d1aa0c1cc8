//! The five facets of a request: URL, query parameters, headers,
//! authentication and body. Each is made of what the renderer answered for
//! it, and each fails with the first thing that went wrong in it.

use crate::collection::{Authentication, Recipe};
use crate::http::models::{BuildError, BuildErrorKind, BuildErrorView, BuildOptions, HeaderView, Url, UrlView};
use crate::http::native::{
    encode_header_name, encode_header_value, entries, header_name, insert_entry,
    is_header_name, is_header_value, lower_cased, new_map, parse_url, parsed_url,
};
use crate::http::plan::{enabled, enabled_entries, Entry};
use crate::util::{
    computes, copy_bytes, lemma_bytes_view, lemma_trimmed_range, trim_bytes, trimmed, with_entry,
};
use indexmap::IndexMap;
use vstd::prelude::*;

verus! {

/// What stands for an answer that the caller did not give.
pub open spec fn not_rendered() -> Seq<char> {
    "template was not rendered"@
}

pub open spec fn failure(kind: BuildErrorKind, subject: Seq<char>, cause: Seq<char>) -> BuildErrorView {
    BuildErrorView { kind, subject, cause }
}

pub open spec fn text_outcome(outcome: Result<String, String>) -> Result<Seq<char>, Seq<char>> {
    match outcome {
        Ok(text) => Ok(text@),
        Err(cause) => Err(cause@),
    }
}

pub open spec fn bytes_outcome(outcome: Result<Vec<u8>, String>) -> Result<Seq<u8>, Seq<char>> {
    match outcome {
        Ok(bytes) => Ok(bytes@),
        Err(cause) => Err(cause@),
    }
}

/// The answer at place `i`; a place without an answer counts as a failed
/// rendering.
pub open spec fn text_at(outcomes: Seq<Result<String, String>>, i: int) -> Result<
    Seq<char>,
    Seq<char>,
> {
    if 0 <= i < outcomes.len() {
        text_outcome(outcomes[i])
    } else {
        Err(not_rendered())
    }
}

/// The answer at place `i`; a place without an answer counts as a failed
/// rendering.
pub open spec fn bytes_at(outcomes: Seq<Result<Vec<u8>, String>>, i: int) -> Result<
    Seq<u8>,
    Seq<char>,
> {
    if 0 <= i < outcomes.len() {
        bytes_outcome(outcomes[i])
    } else {
        Err(not_rendered())
    }
}

pub open spec fn optional_text(outcome: Option<Result<String, String>>) -> Result<
    Seq<char>,
    Seq<char>,
> {
    match outcome {
        Some(outcome) => text_outcome(outcome),
        None => Err(not_rendered()),
    }
}

pub open spec fn optional_bytes(outcome: Option<Result<Vec<u8>, String>>) -> Result<
    Seq<u8>,
    Seq<char>,
> {
    match outcome {
        Some(outcome) => bytes_outcome(outcome),
        None => Err(not_rendered()),
    }
}

/// All the values where every item is one, else the first error in the
/// items' order.
pub open spec fn collected<T>(items: Seq<Result<T, BuildErrorView>>) -> Result<
    Seq<T>,
    BuildErrorView,
>
    decreases items.len(),
{
    if items.len() == 0 {
        Ok(Seq::empty())
    } else {
        match collected(items.drop_last()) {
            Err(error) => Err(error),
            Ok(values) => match items.last() {
                Ok(value) => Ok(values.push(value)),
                Err(error) => Err(error),
            },
        }
    }
}

/// An error among the first `n` items is the error of all of them.
pub proof fn lemma_collected_error<T>(items: Seq<Result<T, BuildErrorView>>, n: int)
    requires
        0 <= n <= items.len(),
        collected(items.take(n)) is Err,
    ensures
        collected(items) == collected(items.take(n)),
    decreases items.len() - n,
{
    if n < items.len() {
        assert(items.take(n + 1).drop_last() =~= items.take(n));
        lemma_collected_error(items, n + 1);
    } else {
        assert(items.take(n) =~= items);
    }
}

/// What `collected` gives is exactly this: on success the value of every
/// item, in order; on failure the error of the first item that is one.
pub proof fn lemma_collected<T>(items: Seq<Result<T, BuildErrorView>>)
    ensures
        match collected(items) {
            Ok(values) => {
                &&& values.len() == items.len()
                &&& forall|i: int| 0 <= i < items.len() ==> #[trigger] items[i] == Ok::<T, BuildErrorView>(values[i])
            },
            Err(error) => exists|i: int|
                {
                    &&& 0 <= i < items.len()
                    &&& #[trigger] items[i] == Err::<T, BuildErrorView>(error)
                    &&& forall|k: int| 0 <= k < i ==> (#[trigger] items[k]) is Ok
                },
        },
    decreases items.len(),
{
    if items.len() > 0 {
        let shorter = items.drop_last();
        lemma_collected(shorter);
        match collected(shorter) {
            Err(error) => {
                let i = choose|i: int|
                    {
                        &&& 0 <= i < shorter.len()
                        &&& #[trigger] shorter[i] == Err::<T, BuildErrorView>(error)
                        &&& forall|k: int| 0 <= k < i ==> (#[trigger] shorter[k]) is Ok
                    };
                assert(items[i] == shorter[i]);
                assert forall|k: int| 0 <= k < i implies (#[trigger] items[k]) is Ok by {
                    assert(items[k] == shorter[k]);
                }
            },
            Ok(values) => {
                match items.last() {
                    Ok(value) => {
                        let all = values.push(value);
                        assert forall|i: int| 0 <= i < items.len() implies #[trigger] items[i]
                            == Ok::<T, BuildErrorView>(all[i]) by {
                            if i < shorter.len() {
                                assert(items[i] == shorter[i]);
                            }
                        }
                    },
                    Err(error) => {
                        let i = items.len() - 1;
                        assert(items[i] == Err::<T, BuildErrorView>(error));
                        assert forall|k: int| 0 <= k < i implies (#[trigger] items[k]) is Ok by {
                            assert(items[k] == shorter[k]);
                        }
                    },
                }
            },
        }
    }
}

/// The URL facet: the rendered text, parsed.
pub open spec fn url_facet(outcome: Result<Seq<char>, Seq<char>>) -> Result<UrlView, BuildErrorView> {
    match outcome {
        Err(cause) => Err(failure(BuildErrorKind::RenderUrl, Seq::empty(), cause)),
        Ok(text) => match parsed_url(text) {
            Ok(url) => Ok(url),
            Err(cause) => Err(failure(BuildErrorKind::InvalidUrl, text, cause)),
        },
    }
}

/// One query parameter: its name with the rendered value.
pub open spec fn query_item(name: Seq<char>, outcome: Result<Seq<char>, Seq<char>>) -> Result<
    (Seq<char>, Seq<char>),
    BuildErrorView,
> {
    match outcome {
        Ok(value) => Ok((name, value)),
        Err(cause) => Err(failure(BuildErrorKind::RenderQueryParameter, name, cause)),
    }
}

pub open spec fn query_items(sent: Seq<Entry>, outcomes: Seq<Result<String, String>>) -> Seq<
    Result<(Seq<char>, Seq<char>), BuildErrorView>,
> {
    Seq::new(sent.len(), |i: int| query_item(sent[i].0, text_at(outcomes, i)))
}

/// The entries of the map that the pairs are inserted into one after the
/// other.
pub open spec fn mapped(pairs: Seq<(Seq<char>, Seq<char>)>) -> Seq<(Seq<char>, Seq<char>)>
    decreases pairs.len(),
{
    if pairs.len() == 0 {
        Seq::empty()
    } else {
        with_entry(mapped(pairs.drop_last()), pairs.last().0, pairs.last().1)
    }
}

/// The query facet: the parameters that are sent, each with its rendered
/// value, as the entries of an ordered map.
pub open spec fn query_facet(sent: Seq<Entry>, outcomes: Seq<Result<String, String>>) -> Result<
    Seq<(Seq<char>, Seq<char>)>,
    BuildErrorView,
> {
    match collected(query_items(sent, outcomes)) {
        Ok(pairs) => Ok(mapped(pairs)),
        Err(error) => Err(error),
    }
}

/// A line feed or a carriage return.
pub open spec fn is_line_break(byte: u8) -> bool {
    byte == 10 || byte == 13
}

pub open spec fn line_breaks() -> spec_fn(u8) -> bool {
    |byte: u8| is_line_break(byte)
}

/// One header: its name in lower case, with the rendered value without the
/// line breaks at its ends.
pub open spec fn header_item(name: Seq<char>, outcome: Result<Seq<u8>, Seq<char>>) -> Result<
    HeaderView,
    BuildErrorView,
> {
    match outcome {
        Err(cause) => Err(failure(BuildErrorKind::RenderHeader, name, cause)),
        Ok(rendered) => {
            let value = trimmed(rendered, line_breaks());
            match header_name(name) {
                None => Err(failure(BuildErrorKind::HeaderName, name, Seq::empty())),
                Some(encoded) => if is_header_value(value) {
                    Ok((encoded, value))
                } else {
                    Err(failure(BuildErrorKind::HeaderValue, name, Seq::empty()))
                },
            }
        },
    }
}

pub open spec fn header_items(sent: Seq<Entry>, outcomes: Seq<Result<Vec<u8>, String>>) -> Seq<
    Result<HeaderView, BuildErrorView>,
> {
    Seq::new(sent.len(), |i: int| header_item(sent[i].0, bytes_at(outcomes, i)))
}

/// The header facet: the headers that are sent, in their order.
pub open spec fn header_facet(sent: Seq<Entry>, outcomes: Seq<Result<Vec<u8>, String>>) -> Result<
    Seq<HeaderView>,
    BuildErrorView,
> {
    collected(header_items(sent, outcomes))
}

/// The authentication facet: the recipe's authentication with rendered
/// values. A recipe without a password template has no password.
pub open spec fn authentication_facet(
    authentication: Option<Authentication<Seq<char>>>,
    outcomes: Seq<Result<String, String>>,
) -> Result<Option<Authentication<Seq<char>>>, BuildErrorView> {
    match authentication {
        None => Ok(None),
        Some(Authentication::Basic { username, password }) => match text_at(outcomes, 0) {
            Err(cause) => Err(failure(BuildErrorKind::RenderUsername, Seq::empty(), cause)),
            Ok(username) => match password {
                None => Ok(Some(Authentication::Basic { username, password: None })),
                Some(_) => match text_at(outcomes, 1) {
                    Err(cause) => Err(
                        failure(BuildErrorKind::RenderPassword, Seq::empty(), cause),
                    ),
                    Ok(password) => Ok(
                        Some(Authentication::Basic { username, password: Some(password) }),
                    ),
                },
            },
        },
        Some(Authentication::Bearer(_)) => match text_at(outcomes, 0) {
            Err(cause) => Err(failure(BuildErrorKind::RenderBearerToken, Seq::empty(), cause)),
            Ok(token) => Ok(Some(Authentication::Bearer(token))),
        },
    }
}

/// The body facet: the rendered body of a recipe that has one.
pub open spec fn body_facet(has_body: bool, outcome: Option<Result<Vec<u8>, String>>) -> Result<
    Option<Seq<u8>>,
    BuildErrorView,
> {
    if has_body {
        match optional_bytes(outcome) {
            Ok(body) => Ok(Some(body)),
            Err(cause) => Err(failure(BuildErrorKind::RenderBody, Seq::empty(), cause)),
        }
    } else {
        Ok(None)
    }
}

/// A header value that is sent is the rendered value without the line
/// breaks at its ends, and nothing else of the rendered value is touched:
/// it is one range of the rendered bytes, every byte outside the range is
/// a line break, and it neither begins nor ends with one.
pub proof fn lemma_header_value_trimmed(name: Seq<char>, rendered: Seq<u8>) -> (range: (int, int))
    requires
        header_item(name, Ok(rendered)) is Ok,
    ensures
        0 <= range.0 <= range.1 <= rendered.len(),
        header_item(name, Ok(rendered))->Ok_0.1 == rendered.subrange(range.0, range.1),
        forall|k: int| 0 <= k < range.0 ==> is_line_break(#[trigger] rendered[k]),
        forall|k: int| range.1 <= k < rendered.len() ==> is_line_break(#[trigger] rendered[k]),
        range.0 < range.1 ==> !is_line_break(rendered[range.0]) && !is_line_break(
            rendered[range.1 - 1],
        ),
        is_header_value(header_item(name, Ok(rendered))->Ok_0.1),
{
    lemma_trimmed_range(rendered, line_breaks())
}

/// A header that is sent goes by the recipe's name for it in lower case,
/// and a header is sent only under a name that is one.
pub proof fn lemma_header_name_lower_case(name: Seq<char>, outcome: Result<Seq<u8>, Seq<char>>)
    requires
        header_item(name, outcome) is Ok,
    ensures
        is_header_name(name),
        header_item(name, outcome)->Ok_0.0 == lower_cased(name),
        header_item(name, outcome)->Ok_0.0.len() == name.len(),
{
}

/// A rendered value with a line break inside it is changed at its ends
/// only, and then is no header value: the header fails to encode.
pub proof fn lemma_line_break_inside_fails(name: Seq<char>, rendered: Seq<u8>, at: int)
    requires
        0 <= at < rendered.len(),
        is_line_break(rendered[at]),
        exists|k: int| 0 <= k < at && !is_line_break(#[trigger] rendered[k]),
        exists|k: int| at < k < rendered.len() && !is_line_break(#[trigger] rendered[k]),
    ensures
        header_item(name, Ok(rendered)) is Err,
{
    let range = lemma_trimmed_range(rendered, line_breaks());
    let value = trimmed(rendered, line_breaks());
    let before = choose|k: int| 0 <= k < at && !is_line_break(#[trigger] rendered[k]);
    let after = choose|k: int| at < k < rendered.len() && !is_line_break(#[trigger] rendered[k]);
    assert(!line_breaks()(rendered[before]));
    assert(!line_breaks()(rendered[after]));
    assert(range.0 <= before && after < range.1);
    assert(value[at - range.0] == rendered[at]);
    assert(!crate::http::native::is_header_value_byte(value[at - range.0]));
}

impl BuildError {
    pub fn new(kind: BuildErrorKind, subject: String, cause: String) -> (error: BuildError)
        ensures
            error@ == failure(kind, subject@, cause@),
    {
        BuildError { kind, subject, cause }
    }
}

/// A copy of the answer at place `i`, with the words for a missing answer
/// where there is none.
fn text_answer(outcomes: &Vec<Result<String, String>>, i: usize) -> (outcome: Result<String, String>)
    ensures
        text_outcome(outcome) == text_at(outcomes@, i as int),
{
    if i < outcomes.len() {
        match &outcomes[i] {
            Ok(text) => Ok(text.clone()),
            Err(cause) => Err(cause.clone()),
        }
    } else {
        Err("template was not rendered".to_owned())
    }
}

/// A copy of the answer at place `i`, with the words for a missing answer
/// where there is none.
fn bytes_answer(outcomes: &Vec<Result<Vec<u8>, String>>, i: usize) -> (outcome: Result<
    Vec<u8>,
    String,
>)
    ensures
        bytes_outcome(outcome) == bytes_at(outcomes@, i as int),
{
    if i < outcomes.len() {
        match &outcomes[i] {
            Ok(bytes) => Ok(copy_bytes(bytes)),
            Err(cause) => Err(cause.clone()),
        }
    } else {
        Err("template was not rendered".to_owned())
    }
}

impl Recipe {
    /// Makes the URL of what the renderer answered for the URL template:
    /// the text parsed as a URL, without the query parameters.
    pub fn render_url(&self, rendered: &Option<Result<String, String>>) -> (result: Result<
        Url,
        BuildError,
    >)
        ensures
            match result {
                Ok(url) => url_facet(optional_text(*rendered)) == Ok::<UrlView, BuildErrorView>(url@),
                Err(error) => url_facet(optional_text(*rendered)) == Err::<UrlView, BuildErrorView>(
                    error@,
                ),
            },
    {
        match rendered {
            None => Err(
                BuildError::new(
                    BuildErrorKind::RenderUrl,
                    String::new(),
                    "template was not rendered".to_owned(),
                ),
            ),
            Some(Err(cause)) => Err(
                BuildError::new(BuildErrorKind::RenderUrl, String::new(), cause.clone()),
            ),
            Some(Ok(text)) => match parse_url(text.as_str()) {
                Ok(url) => Ok(url),
                Err(cause) => Err(BuildError::new(BuildErrorKind::InvalidUrl, text.clone(), cause)),
            },
        }
    }

    /// Makes the query of what the renderer answered for the parameters
    /// that are not disabled, in their order. A name that comes again keeps
    /// its first place and takes the later value.
    pub fn render_query(&self, options: &BuildOptions, rendered: &Vec<Result<String, String>>) -> (result:
        Result<IndexMap<String, String>, BuildError>)
        ensures
            match result {
                Ok(query) => query_facet(
                    enabled(self.query.deep_view(), options.disabled_query_parameters.deep_view()),
                    rendered@,
                ) == Ok::<Seq<(Seq<char>, Seq<char>)>, BuildErrorView>(entries(query)),
                Err(error) => query_facet(
                    enabled(self.query.deep_view(), options.disabled_query_parameters.deep_view()),
                    rendered@,
                ) == Err::<Seq<(Seq<char>, Seq<char>)>, BuildErrorView>(error@),
            },
    {
        let sent = enabled_entries(&self.query, &options.disabled_query_parameters);
        let ghost items = query_items(sent.deep_view(), rendered@);
        let mut query = new_map();
        let ghost mut pairs: Seq<(Seq<char>, Seq<char>)> = Seq::empty();
        let mut i: usize = 0;
        assert(items.take(0) =~= Seq::empty());
        while i < sent.len()
            invariant
                i <= sent.len(),
                sent.deep_view() == enabled(
                    self.query.deep_view(),
                    options.disabled_query_parameters.deep_view(),
                ),
                items == query_items(sent.deep_view(), rendered@),
                collected(items.take(i as int)) == Ok::<Seq<(Seq<char>, Seq<char>)>, BuildErrorView>(
                    pairs,
                ),
                entries(query) == mapped(pairs),
            decreases sent.len() - i,
        {
            assert(items.take(i as int + 1).drop_last() =~= items.take(i as int));
            assert(items.take(i as int + 1).last() == items[i as int]);
            assert(sent.deep_view()[i as int] == sent[i as int].deep_view());
            match text_answer(rendered, i) {
                Ok(value) => {
                    let ghost before = pairs;
                    proof {
                        pairs = before.push((sent[i as int].0@, value@));
                        assert(pairs.drop_last() =~= before);
                    }
                    insert_entry(&mut query, sent[i].0.clone(), value);
                },
                Err(cause) => {
                    let error = BuildError::new(
                        BuildErrorKind::RenderQueryParameter,
                        sent[i].0.clone(),
                        cause,
                    );
                    proof {
                        lemma_collected_error(items, i as int + 1);
                    }
                    return Err(error);
                },
            }
            i += 1;
        }
        assert(items.take(sent.len() as int) =~= items);
        Ok(query)
    }

    /// Makes one header of what the renderer answered for its value: line
    /// breaks at the value's ends are taken off, because such bytes are never
    /// valid in a header and are most likely left over from a template of
    /// several lines; then the name and the value are encoded.
    pub fn render_header(&self, header: &str, rendered: &Result<Vec<u8>, String>) -> (result: Result<
        (String, Vec<u8>),
        BuildError,
    >)
        ensures
            match result {
                Ok(encoded) => header_item(header@, bytes_outcome(*rendered)) == Ok::<
                    HeaderView,
                    BuildErrorView,
                >(encoded.deep_view()),
                Err(error) => header_item(header@, bytes_outcome(*rendered)) == Err::<
                    HeaderView,
                    BuildErrorView,
                >(error@),
            },
    {
        match rendered {
            Err(cause) => Err(
                BuildError::new(BuildErrorKind::RenderHeader, header.to_owned(), cause.clone()),
            ),
            Ok(bytes) => {
                let mut value = copy_bytes(bytes);
                let is_break = |byte: u8| -> (found: bool)
                    ensures
                        found == is_line_break(byte),
                    { byte == 10 || byte == 13 };
                assert(computes(is_break, line_breaks()));
                trim_bytes(&mut value, is_break);
                assert(value@ == trimmed(bytes@, line_breaks()));
                match encode_header_name(header) {
                    None => Err(
                        BuildError::new(
                            BuildErrorKind::HeaderName,
                            header.to_owned(),
                            String::new(),
                        ),
                    ),
                    Some(name) => match encode_header_value(value) {
                        Some(value) => {
                            proof {
                                lemma_bytes_view(value);
                            }
                            Ok((name, value))
                        },
                        None => Err(
                            BuildError::new(
                                BuildErrorKind::HeaderValue,
                                header.to_owned(),
                                String::new(),
                            ),
                        ),
                    },
                }
            },
        }
    }

    /// Makes the headers of what the renderer answered for those that are
    /// not disabled, in their order. Authentication is no part of them.
    pub fn render_headers(&self, options: &BuildOptions, rendered: &Vec<Result<Vec<u8>, String>>) -> (result:
        Result<Vec<(String, Vec<u8>)>, BuildError>)
        ensures
            match result {
                Ok(headers) => header_facet(
                    enabled(self.headers.deep_view(), options.disabled_headers.deep_view()),
                    rendered@,
                ) == Ok::<Seq<HeaderView>, BuildErrorView>(headers.deep_view()),
                Err(error) => header_facet(
                    enabled(self.headers.deep_view(), options.disabled_headers.deep_view()),
                    rendered@,
                ) == Err::<Seq<HeaderView>, BuildErrorView>(error@),
            },
    {
        let sent = enabled_entries(&self.headers, &options.disabled_headers);
        let ghost items = header_items(sent.deep_view(), rendered@);
        let mut headers: Vec<(String, Vec<u8>)> = Vec::new();
        let mut i: usize = 0;
        assert(items.take(0) =~= Seq::empty());
        assert(headers.deep_view() =~= Seq::<HeaderView>::empty());
        while i < sent.len()
            invariant
                i <= sent.len(),
                sent.deep_view() == enabled(
                    self.headers.deep_view(),
                    options.disabled_headers.deep_view(),
                ),
                items == header_items(sent.deep_view(), rendered@),
                collected(items.take(i as int)) == Ok::<Seq<HeaderView>, BuildErrorView>(
                    headers.deep_view(),
                ),
            decreases sent.len() - i,
        {
            assert(items.take(i as int + 1).drop_last() =~= items.take(i as int));
            assert(items.take(i as int + 1).last() == items[i as int]);
            assert(sent.deep_view()[i as int] == sent[i as int].deep_view());
            let outcome = bytes_answer(rendered, i);
            match self.render_header(sent[i].0.as_str(), &outcome) {
                Ok(header) => {
                    let ghost before = headers.deep_view();
                    headers.push(header);
                    assert(headers.deep_view() =~= before.push(header.deep_view()));
                },
                Err(error) => {
                    proof {
                        lemma_collected_error(items, i as int + 1);
                    }
                    return Err(error);
                },
            }
            i += 1;
        }
        assert(items.take(sent.len() as int) =~= items);
        Ok(headers)
    }

    /// Makes the authentication of what the renderer answered for the
    /// recipe's: the same kind, with rendered values. Without a password
    /// template there is no password, which is no error.
    pub fn render_authentication(&self, rendered: &Vec<Result<String, String>>) -> (result: Result<
        Option<Authentication<String>>,
        BuildError,
    >)
        ensures
            match result {
                Ok(authentication) => authentication_facet(
                    self.authentication.deep_view(),
                    rendered@,
                ) == Ok::<Option<Authentication<Seq<char>>>, BuildErrorView>(
                    authentication.deep_view(),
                ),
                Err(error) => authentication_facet(self.authentication.deep_view(), rendered@)
                    == Err::<Option<Authentication<Seq<char>>>, BuildErrorView>(error@),
            },
    {
        match &self.authentication {
            None => Ok(None),
            Some(Authentication::Basic { username: _, password }) => {
                match text_answer(rendered, 0) {
                    Err(cause) => Err(
                        BuildError::new(BuildErrorKind::RenderUsername, String::new(), cause),
                    ),
                    Ok(username) => match password {
                        None => Ok(Some(Authentication::Basic { username, password: None })),
                        Some(_) => match text_answer(rendered, 1) {
                            Err(cause) => Err(
                                BuildError::new(
                                    BuildErrorKind::RenderPassword,
                                    String::new(),
                                    cause,
                                ),
                            ),
                            Ok(password) => Ok(
                                Some(Authentication::Basic { username, password: Some(password) }),
                            ),
                        },
                    },
                }
            },
            Some(Authentication::Bearer(_)) => match text_answer(rendered, 0) {
                Err(cause) => Err(
                    BuildError::new(BuildErrorKind::RenderBearerToken, String::new(), cause),
                ),
                Ok(token) => Ok(Some(Authentication::Bearer(token))),
            },
        }
    }

    /// Makes the body of what the renderer answered for the body template.
    /// A recipe without a body has none, which is no error.
    pub fn render_body(&self, rendered: &Option<Result<Vec<u8>, String>>) -> (result: Result<
        Option<Vec<u8>>,
        BuildError,
    >)
        ensures
            match result {
                Ok(body) => body_facet(self.body is Some, *rendered) == Ok::<
                    Option<Seq<u8>>,
                    BuildErrorView,
                >(body.deep_view()),
                Err(error) => body_facet(self.body is Some, *rendered) == Err::<
                    Option<Seq<u8>>,
                    BuildErrorView,
                >(error@),
            },
    {
        if self.body.is_none() {
            return Ok(None);
        }
        match rendered {
            Some(Ok(body)) => Ok(Some(copy_bytes(body))),
            Some(Err(cause)) => Err(
                BuildError::new(BuildErrorKind::RenderBody, String::new(), cause.clone()),
            ),
            None => Err(
                BuildError::new(
                    BuildErrorKind::RenderBody,
                    String::new(),
                    "template was not rendered".to_owned(),
                ),
            ),
        }
    }
}

} // verus!
