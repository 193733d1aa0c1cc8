//! What a build asks the renderer for, and what the renderer answers.
//!
//! A build never renders anything itself. It says which templates it needs,
//! the caller has them rendered, in any order or all at once, and hands the
//! answers back in the plan's order.

use crate::collection::{Authentication, Template};
use crate::http::models::RequestSeed;
use vstd::prelude::*;

verus! {

/// A name and the source of a template.
pub type Entry = (Seq<char>, Seq<char>);

/// The entries whose name is not among `disabled`, in their order.
pub open spec fn enabled(entries: Seq<Entry>, disabled: Seq<Seq<char>>) -> Seq<Entry>
    decreases entries.len(),
{
    if entries.len() == 0 {
        Seq::empty()
    } else {
        let before = enabled(entries.drop_last(), disabled);
        if disabled.contains(entries.last().0) {
            before
        } else {
            before.push(entries.last())
        }
    }
}

/// Whether `name` is one of `names`.
pub fn contains_name(names: &Vec<String>, name: &String) -> (found: bool)
    ensures
        found == names.deep_view().contains(name@),
{
    let mut i: usize = 0;
    while i < names.len()
        invariant
            i <= names.len(),
            forall|k: int| 0 <= k < i ==> names.deep_view()[k] != name@,
        decreases names.len() - i,
    {
        if names[i] == *name {
            assert(names.deep_view()[i as int] == name@);
            return true;
        }
        i += 1;
    }
    false
}

/// Copies of the entries whose name is not among `disabled`, in their
/// order.
pub fn enabled_entries(entries: &Vec<(String, Template)>, disabled: &Vec<String>) -> (kept: Vec<
    (String, Template),
>)
    ensures
        kept.deep_view() == enabled(entries.deep_view(), disabled.deep_view()),
{
    let mut kept: Vec<(String, Template)> = Vec::new();
    let mut i: usize = 0;
    assert(entries.deep_view().take(0) =~= Seq::<Entry>::empty());
    while i < entries.len()
        invariant
            i <= entries.len(),
            kept.deep_view() == enabled(entries.deep_view().take(i as int), disabled.deep_view()),
        decreases entries.len() - i,
    {
        let ghost before = kept.deep_view();
        let ghost prefix = entries.deep_view().take(i as int + 1);
        assert(prefix.drop_last() =~= entries.deep_view().take(i as int));
        assert(prefix.last() == entries[i as int].deep_view());
        if !contains_name(disabled, &entries[i].0) {
            kept.push((entries[i].0.clone(), entries[i].1.duplicate()));
            assert(kept.deep_view() =~= before.push(entries[i as int].deep_view()));
        }
        i += 1;
    }
    assert(entries.deep_view().take(entries.len() as int) =~= entries.deep_view());
    kept
}

/// Each enabled entry is an entry of the list, none has a disabled name,
/// and every entry of the list without a disabled name is among them.
pub proof fn lemma_enabled(entries: Seq<Entry>, disabled: Seq<Seq<char>>)
    ensures
        enabled(entries, disabled).len() <= entries.len(),
        forall|i: int|
            0 <= i < enabled(entries, disabled).len() ==> {
                &&& entries.contains(#[trigger] enabled(entries, disabled)[i])
                &&& !disabled.contains(enabled(entries, disabled)[i].0)
            },
        forall|k: int|
            0 <= k < entries.len() && !disabled.contains((#[trigger] entries[k]).0) ==> enabled(
                entries,
                disabled,
            ).contains(entries[k]),
    decreases entries.len(),
{
    if entries.len() > 0 {
        let shorter = entries.drop_last();
        let before = enabled(shorter, disabled);
        let all = enabled(entries, disabled);
        lemma_enabled(shorter, disabled);
        assert forall|i: int| 0 <= i < all.len() implies {
            &&& entries.contains(#[trigger] all[i])
            &&& !disabled.contains(all[i].0)
        } by {
            if i < before.len() {
                assert(all[i] == before[i]);
                let k = choose|k: int| 0 <= k < shorter.len() && shorter[k] == before[i];
                assert(entries[k] == all[i]);
            } else {
                assert(all[i] == entries[entries.len() - 1]);
            }
        }
        assert forall|k: int|
            0 <= k < entries.len() && !disabled.contains((#[trigger] entries[k]).0) implies all.contains(
            entries[k],
        ) by {
            if k < shorter.len() {
                assert(shorter[k] == entries[k]);
                let i = choose|i: int| 0 <= i < before.len() && before[i] == shorter[k];
                assert(all[i] == entries[k]);
            } else {
                assert(all[all.len() - 1] == entries[k]);
            }
        }
    }
}

/// With nothing disabled every entry is enabled.
pub proof fn lemma_enabled_all(entries: Seq<Entry>)
    ensures
        enabled(entries, Seq::empty()) == entries,
    decreases entries.len(),
{
    if entries.len() > 0 {
        lemma_enabled_all(entries.drop_last());
        assert(entries.drop_last().push(entries.last()) =~= entries);
    }
}

/// The templates that make up the authentication, in rendering order: the
/// username and, where there is one, the password; or the token.
pub open spec fn credential_sources(authentication: Option<Authentication<Seq<char>>>) -> Seq<
    Seq<char>,
> {
    match authentication {
        None => Seq::empty(),
        Some(Authentication::Basic { username, password: None }) => seq![username],
        Some(Authentication::Basic { username, password: Some(password) }) => seq![
            username,
            password,
        ],
        Some(Authentication::Bearer(token)) => seq![token],
    }
}

pub struct RenderPlanView {
    pub url: Option<Seq<char>>,
    pub query: Seq<Entry>,
    pub headers: Seq<Entry>,
    pub authentication: Seq<Seq<char>>,
    pub body: Option<Seq<char>>,
}

/// The templates that one build needs rendered. Those of `url`, `query`
/// and `authentication` are to be rendered to strings, those of `headers`
/// and `body` to bytes.
#[derive(Debug, PartialEq, Eq)]
pub struct RenderPlan {
    pub url: Option<Template>,
    /// Name and value template of each query parameter to send.
    pub query: Vec<(String, Template)>,
    /// Name and value template of each header to send.
    pub headers: Vec<(String, Template)>,
    /// The username and, where there is one, the password; or the token.
    pub authentication: Vec<Template>,
    pub body: Option<Template>,
}

impl View for RenderPlan {
    type V = RenderPlanView;

    open spec fn view(&self) -> RenderPlanView {
        RenderPlanView {
            url: self.url.deep_view(),
            query: self.query.deep_view(),
            headers: self.headers.deep_view(),
            authentication: self.authentication.deep_view(),
            body: self.body.deep_view(),
        }
    }
}

/// What the renderer answered for each template of a plan, in the plan's
/// order: the rendered value, or a description of what failed.
#[derive(Debug, PartialEq, Eq)]
pub struct Rendered {
    pub url: Option<Result<String, String>>,
    pub query: Vec<Result<String, String>>,
    pub headers: Vec<Result<Vec<u8>, String>>,
    pub authentication: Vec<Result<String, String>>,
    pub body: Option<Result<Vec<u8>, String>>,
}

impl Rendered {
    /// No answer at all.
    pub fn new() -> (rendered: Rendered)
        ensures
            rendered.url is None,
            rendered.query@.len() == 0,
            rendered.headers@.len() == 0,
            rendered.authentication@.len() == 0,
            rendered.body is None,
    {
        Rendered {
            url: None,
            query: Vec::new(),
            headers: Vec::new(),
            authentication: Vec::new(),
            body: None,
        }
    }
}

impl RequestSeed {
    /// The query parameters that the build sends.
    pub open spec fn enabled_query(&self) -> Seq<Entry> {
        enabled(self.recipe.query.deep_view(), self.options.disabled_query_parameters.deep_view())
    }

    /// The headers that the build sends.
    pub open spec fn enabled_headers(&self) -> Seq<Entry> {
        enabled(self.recipe.headers.deep_view(), self.options.disabled_headers.deep_view())
    }

    /// What a full build renders: the URL, every query parameter and header
    /// that is not disabled, the recipe's authentication and its body.
    pub open spec fn full_plan(&self) -> RenderPlanView {
        RenderPlanView {
            url: Some(self.recipe.url.deep_view()),
            query: self.enabled_query(),
            headers: self.enabled_headers(),
            authentication: credential_sources(self.recipe.authentication.deep_view()),
            body: self.recipe.body.deep_view(),
        }
    }

    /// What building the URL renders: the URL and every query parameter
    /// that is not disabled, and nothing else.
    pub open spec fn url_plan(&self) -> RenderPlanView {
        RenderPlanView {
            url: Some(self.recipe.url.deep_view()),
            query: self.enabled_query(),
            headers: Seq::empty(),
            authentication: Seq::empty(),
            body: None,
        }
    }

    /// What building the body renders: the body, and nothing else.
    pub open spec fn body_plan(&self) -> RenderPlanView {
        RenderPlanView {
            url: None,
            query: Seq::empty(),
            headers: Seq::empty(),
            authentication: Seq::empty(),
            body: self.recipe.body.deep_view(),
        }
    }

    /// The templates to render for a full build.
    pub fn plan(&self) -> (plan: RenderPlan)
        ensures
            plan@ == self.full_plan(),
    {
        let mut authentication: Vec<Template> = Vec::new();
        match &self.recipe.authentication {
            Some(Authentication::Basic { username, password }) => {
                authentication.push(username.duplicate());
                match password {
                    Some(password) => {
                        authentication.push(password.duplicate());
                    },
                    None => {},
                }
            },
            Some(Authentication::Bearer(token)) => {
                authentication.push(token.duplicate());
            },
            None => {},
        }
        let plan = RenderPlan {
            url: Some(self.recipe.url.duplicate()),
            query: enabled_entries(&self.recipe.query, &self.options.disabled_query_parameters),
            headers: enabled_entries(&self.recipe.headers, &self.options.disabled_headers),
            authentication,
            body: match &self.recipe.body {
                Some(body) => Some(body.duplicate()),
                None => None,
            },
        };
        assert(plan.authentication.deep_view() =~= credential_sources(
            self.recipe.authentication.deep_view(),
        ));
        plan
    }

    /// The templates to render for the URL alone.
    pub fn plan_url(&self) -> (plan: RenderPlan)
        ensures
            plan@ == self.url_plan(),
    {
        let plan = RenderPlan {
            url: Some(self.recipe.url.duplicate()),
            query: enabled_entries(&self.recipe.query, &self.options.disabled_query_parameters),
            headers: Vec::new(),
            authentication: Vec::new(),
            body: None,
        };
        assert(plan.headers.deep_view() =~= Seq::<Entry>::empty());
        assert(plan.authentication.deep_view() =~= Seq::<Seq<char>>::empty());
        plan
    }

    /// The templates to render for the body alone.
    pub fn plan_body(&self) -> (plan: RenderPlan)
        ensures
            plan@ == self.body_plan(),
    {
        let plan = RenderPlan {
            url: None,
            query: Vec::new(),
            headers: Vec::new(),
            authentication: Vec::new(),
            body: match &self.recipe.body {
                Some(body) => Some(body.duplicate()),
                None => None,
            },
        };
        assert(plan.query.deep_view() =~= Seq::<Entry>::empty());
        assert(plan.headers.deep_view() =~= Seq::<Entry>::empty());
        assert(plan.authentication.deep_view() =~= Seq::<Seq<char>>::empty());
        plan
    }
}

/// No plan of a build holds a disabled query parameter or a disabled
/// header: the renderer is never asked for one.
pub proof fn lemma_disabled_never_planned(seed: RequestSeed)
    ensures
        forall|i: int|
            0 <= i < seed.full_plan().query.len()
                ==> !seed.options.disabled_query_parameters.deep_view().contains(
                (#[trigger] seed.full_plan().query[i]).0,
            ),
        forall|i: int|
            0 <= i < seed.full_plan().headers.len()
                ==> !seed.options.disabled_headers.deep_view().contains(
                (#[trigger] seed.full_plan().headers[i]).0,
            ),
        forall|i: int|
            0 <= i < seed.url_plan().query.len()
                ==> !seed.options.disabled_query_parameters.deep_view().contains(
                (#[trigger] seed.url_plan().query[i]).0,
            ),
        seed.body_plan().query.len() == 0,
        seed.body_plan().headers.len() == 0,
{
    lemma_enabled(seed.recipe.query.deep_view(), seed.options.disabled_query_parameters.deep_view());
    lemma_enabled(seed.recipe.headers.deep_view(), seed.options.disabled_headers.deep_view());
}

} // verus!
