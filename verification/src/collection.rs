//! Request collections: recipes, the templates they are made of, and the
//! profiles whose variables resolve those templates.

pub mod jetbrains;

use vstd::prelude::*;
use vstd::std_specs::cmp::PartialEqSpecImpl;

verus! {

/// HTTP method of a recipe.
#[derive(Clone, Copy, Debug, PartialEq, Eq, Structural)]
pub enum Method {
    Connect,
    Delete,
    Get,
    Head,
    Options,
    Patch,
    Post,
    Put,
    Trace,
}

impl Method {
    /// The method's name as it goes on the wire.
    pub open spec fn name(self) -> Seq<char> {
        match self {
            Method::Connect => "CONNECT"@,
            Method::Delete => "DELETE"@,
            Method::Get => "GET"@,
            Method::Head => "HEAD"@,
            Method::Options => "OPTIONS"@,
            Method::Patch => "PATCH"@,
            Method::Post => "POST"@,
            Method::Put => "PUT"@,
            Method::Trace => "TRACE"@,
        }
    }

    /// The method's name as it goes on the wire.
    pub fn as_str(&self) -> (name: &'static str)
        ensures
            name@ == self.name(),
    {
        match self {
            Method::Connect => "CONNECT",
            Method::Delete => "DELETE",
            Method::Get => "GET",
            Method::Head => "HEAD",
            Method::Options => "OPTIONS",
            Method::Patch => "PATCH",
            Method::Post => "POST",
            Method::Put => "PUT",
            Method::Trace => "TRACE",
        }
    }
}

/// Source text of a template. What it resolves to is decided by whoever
/// renders it; the request pipeline only carries it to the renderer.
#[derive(Debug, PartialEq, Eq)]
pub struct Template {
    pub source: String,
}

impl DeepView for Template {
    type V = Seq<char>;

    open spec fn deep_view(&self) -> Seq<char> {
        self.source@
    }
}

impl Template {
    pub fn new(source: &str) -> (template: Template)
        ensures
            template.deep_view() == source@,
    {
        Template { source: source.to_owned() }
    }

    pub fn duplicate(&self) -> (copy: Template)
        ensures
            copy.deep_view() == self.deep_view(),
    {
        Template { source: self.source.clone() }
    }
}

/// Identifier of a recipe within its collection.
#[derive(Debug, PartialEq, Eq)]
pub struct RecipeId(pub String);

impl View for RecipeId {
    type V = Seq<char>;

    open spec fn view(&self) -> Seq<char> {
        self.0@
    }
}

impl RecipeId {
    pub fn new(id: &str) -> (recipe_id: RecipeId)
        ensures
            recipe_id@ == id@,
    {
        RecipeId(id.to_owned())
    }

    pub fn duplicate(&self) -> (copy: RecipeId)
        ensures
            copy@ == self@,
    {
        RecipeId(self.0.clone())
    }
}

/// Identifier of a profile within its collection.
#[derive(Debug, Eq)]
pub struct ProfileId(pub String);

impl View for ProfileId {
    type V = Seq<char>;

    open spec fn view(&self) -> Seq<char> {
        self.0@
    }
}

impl DeepView for ProfileId {
    type V = Seq<char>;

    open spec fn deep_view(&self) -> Seq<char> {
        self.0@
    }
}

impl Clone for ProfileId {
    fn clone(&self) -> (copy: ProfileId)
        ensures
            copy == *self,
    {
        ProfileId(self.0.clone())
    }
}

impl PartialEq for ProfileId {
    fn eq(&self, other: &ProfileId) -> (same: bool) {
        self.0 == other.0
    }
}

impl PartialEqSpecImpl for ProfileId {
    open spec fn obeys_eq_spec() -> bool {
        true
    }

    open spec fn eq_spec(&self, other: &ProfileId) -> bool {
        self@ == other@
    }
}

impl ProfileId {
    pub fn new(id: &str) -> (profile_id: ProfileId)
        ensures
            profile_id@ == id@,
    {
        ProfileId(id.to_owned())
    }

    /// Whether this is the identifier of `profile`.
    pub fn names(&self, profile: &Profile) -> (names: bool)
        ensures
            names == (self@ == profile.id@),
    {
        *self == profile.id
    }
}

/// A named set of variable bindings that templates are resolved against.
#[derive(Debug, PartialEq, Eq)]
pub struct Profile {
    pub id: ProfileId,
    pub name: Option<String>,
    /// Variable name and template, in declared order.
    pub data: Vec<(String, Template)>,
}

impl Profile {
    /// The name to show for the profile: its own name, or its identifier
    /// where it has none.
    pub open spec fn display_name(&self) -> Seq<char> {
        match self.name {
            Some(name) => name@,
            None => self.id@,
        }
    }

    /// The name to show for the profile: its own name, or its identifier
    /// where it has none.
    pub fn name(&self) -> (name: &str)
        ensures
            name@ == self.display_name(),
    {
        match &self.name {
            Some(name) => name.as_str(),
            None => self.id.0.as_str(),
        }
    }

    pub fn duplicate(&self) -> (copy: Profile)
        ensures
            copy.id@ == self.id@,
            copy.name.deep_view() == self.name.deep_view(),
            copy.data.deep_view() == self.data.deep_view(),
    {
        let name = match &self.name {
            Some(name) => Some(name.clone()),
            None => None,
        };
        Profile { id: self.id.clone(), name, data: duplicate_entries(&self.data) }
    }
}

/// How a request authenticates. `T` is a template before rendering and a
/// string after it.
#[derive(Debug, PartialEq, Eq)]
pub enum Authentication<T> {
    /// Username and optional password.
    Basic { username: T, password: Option<T> },
    /// A bearer token.
    Bearer(T),
}

impl<T: DeepView> DeepView for Authentication<T> {
    type V = Authentication<T::V>;

    open spec fn deep_view(&self) -> Authentication<T::V> {
        match self {
            Authentication::Basic { username, password } => Authentication::Basic {
                username: username.deep_view(),
                password: password.deep_view(),
            },
            Authentication::Bearer(token) => Authentication::Bearer(token.deep_view()),
        }
    }
}

/// A user-authored template for one HTTP request.
#[derive(Debug, PartialEq, Eq)]
pub struct Recipe {
    pub id: RecipeId,
    pub method: Method,
    pub url: Template,
    /// Query parameter name and value template, in declared order.
    pub query: Vec<(String, Template)>,
    /// Header name and value template, in declared order.
    pub headers: Vec<(String, Template)>,
    pub authentication: Option<Authentication<Template>>,
    pub body: Option<Template>,
}

/// Copies a list of named templates.
pub fn duplicate_entries(entries: &Vec<(String, Template)>) -> (copy: Vec<(String, Template)>)
    ensures
        copy.deep_view() == entries.deep_view(),
{
    let mut copy: Vec<(String, Template)> = Vec::new();
    let mut i: usize = 0;
    while i < entries.len()
        invariant
            i <= entries.len(),
            copy.len() == i,
            forall|k: int| 0 <= k < i ==> copy[k].deep_view() == entries[k].deep_view(),
        decreases entries.len() - i,
    {
        copy.push((entries[i].0.clone(), entries[i].1.duplicate()));
        i += 1;
    }
    assert(copy.deep_view() =~= entries.deep_view());
    copy
}

} // verus!
