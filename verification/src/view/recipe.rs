//! What the user has set for a recipe before it is built: which query
//! parameters and headers are switched off, and what stands in for the
//! recipe's authentication and body.

use crate::collection::{Authentication, Method, Recipe, Template};
use crate::http::models::BuildOptions;
use crate::http::plan::{enabled, lemma_enabled, Entry};
use crate::util::copy_bytes;
use vstd::prelude::*;

verus! {

/// The tabs of the recipe pane.
#[derive(Clone, Copy, Debug, PartialEq, Eq, Structural)]
pub enum Tab {
    Body,
    Query,
    Headers,
    Authentication,
}

impl Tab {
    /// The tab's title.
    pub fn title(&self) -> (title: &'static str)
        ensures
            title@ == match self {
                Tab::Body => "Body"@,
                Tab::Query => "Query"@,
                Tab::Headers => "Headers"@,
                Tab::Authentication => "Authentication"@,
            },
    {
        match self {
            Tab::Body => "Body",
            Tab::Query => "Query",
            Tab::Headers => "Headers",
            Tab::Authentication => "Authentication",
        }
    }
}

/// One field of a table: a query parameter or a header, and whether it
/// is switched on.
#[derive(Debug)]
pub struct FieldRow {
    pub name: String,
    pub template: Template,
    pub enabled: bool,
}

/// A table of the fields of one kind, query parameters or headers, each
/// with the switch by which the user leaves it out of the request.
#[derive(Debug)]
pub struct RecipeFieldTable {
    rows: Vec<FieldRow>,
}

/// The names of the fields that are switched off, in the table's order.
pub open spec fn switched_off(fields: Seq<Entry>, switched_on: Seq<bool>) -> Seq<Seq<char>>
    decreases fields.len(),
{
    if fields.len() == 0 || fields.len() != switched_on.len() {
        Seq::empty()
    } else {
        let before = switched_off(fields.drop_last(), switched_on.drop_last());
        if switched_on.last() {
            before
        } else {
            before.push(fields.last().0)
        }
    }
}

/// A name is among the switched off exactly when a field of that name is
/// switched off.
pub proof fn lemma_switched_off(fields: Seq<Entry>, switched_on: Seq<bool>, name: Seq<char>)
    requires
        fields.len() == switched_on.len(),
    ensures
        switched_off(fields, switched_on).contains(name) <==> exists|i: int|
            0 <= i < fields.len() && (#[trigger] fields[i]).0 == name && !switched_on[i],
    decreases fields.len(),
{
    if fields.len() > 0 {
        let shorter = fields.drop_last();
        let shorter_on = switched_on.drop_last();
        let before = switched_off(shorter, shorter_on);
        let all = switched_off(fields, switched_on);
        lemma_switched_off(shorter, shorter_on, name);
        if all.contains(name) {
            let k = choose|k: int| 0 <= k < all.len() && all[k] == name;
            if k < before.len() {
                assert(before[k] == name);
                let i = choose|i: int|
                    0 <= i < shorter.len() && (#[trigger] shorter[i]).0 == name && !shorter_on[i];
                assert(fields[i].0 == name && !switched_on[i]);
            } else {
                let i = fields.len() - 1;
                assert(fields[i].0 == name && !switched_on[i]);
            }
        }
        if exists|i: int|
            0 <= i < fields.len() && (#[trigger] fields[i]).0 == name && !switched_on[i] {
            let i = choose|i: int|
                0 <= i < fields.len() && (#[trigger] fields[i]).0 == name && !switched_on[i];
            if i < shorter.len() {
                assert(shorter[i].0 == name && !shorter_on[i]);
                let k = choose|k: int| 0 <= k < before.len() && before[k] == name;
                assert(all[k] == name);
            } else {
                assert(all[all.len() - 1] == name);
            }
        }
    }
}

impl RecipeFieldTable {
    /// The fields, each a name and a template.
    pub closed spec fn fields(&self) -> Seq<Entry> {
        Seq::new(
            self.rows.len() as nat,
            |i: int| (self.rows[i].name@, self.rows[i].template.deep_view()),
        )
    }

    /// The switch of each field.
    pub closed spec fn switches(&self) -> Seq<bool> {
        Seq::new(self.rows.len() as nat, |i: int| self.rows[i].enabled)
    }

    /// A table of the fields, all of them switched on.
    pub fn new(fields: &Vec<(String, Template)>) -> (table: Self)
        ensures
            table.fields() == fields.deep_view(),
            table.switches().len() == fields.len(),
            forall|i: int| 0 <= i < fields.len() ==> #[trigger] table.switches()[i],
    {
        let mut rows: Vec<FieldRow> = Vec::new();
        let mut i: usize = 0;
        while i < fields.len()
            invariant
                i <= fields.len(),
                rows.len() == i,
                forall|k: int|
                    0 <= k < i ==> {
                        &&& (#[trigger] rows[k]).name@ == fields[k].0@
                        &&& rows[k].template.deep_view() == fields[k].1.deep_view()
                        &&& rows[k].enabled
                    },
            decreases fields.len() - i,
        {
            rows.push(
                FieldRow {
                    name: fields[i].0.clone(),
                    template: fields[i].1.duplicate(),
                    enabled: true,
                },
            );
            i += 1;
        }
        let table = RecipeFieldTable { rows };
        assert(table.fields() =~= fields.deep_view());
        table
    }

    /// How many fields the table has.
    pub fn len(&self) -> (count: usize)
        ensures
            count == self.fields().len(),
            count == self.switches().len(),
    {
        self.rows.len()
    }

    /// Whether the field at `index` is switched on. A place without a
    /// field has none that is switched on.
    pub fn is_enabled(&self, index: usize) -> (on: bool)
        ensures
            on == (index < self.switches().len() && self.switches()[index as int]),
    {
        index < self.rows.len() && self.rows[index].enabled
    }

    /// Sets the switch of the field at `index`. A place without a field is
    /// left alone.
    pub fn set_enabled(&mut self, index: usize, on: bool)
        ensures
            final(self).fields() == old(self).fields(),
            final(self).switches() == if index < old(self).switches().len() {
                old(self).switches().update(index as int, on)
            } else {
                old(self).switches()
            },
    {
        if index < self.rows.len() {
            let row = FieldRow {
                name: self.rows[index].name.clone(),
                template: self.rows[index].template.duplicate(),
                enabled: on,
            };
            self.rows.set(index, row);
            assert(self.fields() =~= old(self).fields());
            assert(self.switches() =~= old(self).switches().update(index as int, on));
        }
    }

    /// The names of the fields that are switched off, in the table's
    /// order. A name stands once for each field of that name that is off.
    pub fn to_build_overrides(&self) -> (names: Vec<String>)
        ensures
            names.deep_view() == switched_off(self.fields(), self.switches()),
    {
        let mut names: Vec<String> = Vec::new();
        let mut i: usize = 0;
        assert(names.deep_view() =~= Seq::<Seq<char>>::empty());
        while i < self.rows.len()
            invariant
                i <= self.rows.len(),
                names.deep_view() == switched_off(
                    self.fields().take(i as int),
                    self.switches().take(i as int),
                ),
            decreases self.rows.len() - i,
        {
            proof {
                let fields = self.fields().take(i as int + 1);
                let switches = self.switches().take(i as int + 1);
                assert(fields.drop_last() =~= self.fields().take(i as int));
                assert(switches.drop_last() =~= self.switches().take(i as int));
                assert(fields.last().0 == self.rows[i as int].name@);
                assert(switches.last() == self.rows[i as int].enabled);
            }
            if !self.rows[i].enabled {
                let ghost before = names.deep_view();
                names.push(self.rows[i].name.clone());
                assert(names.deep_view() =~= before.push(self.rows[i as int].name@));
            }
            i += 1;
        }
        assert(self.fields().take(self.rows.len() as int) =~= self.fields());
        assert(self.switches().take(self.rows.len() as int) =~= self.switches());
        names
    }
}

/// The body of a recipe as it is shown, with what the user has put in
/// its place, if anything.
#[derive(Debug)]
pub struct RecipeBodyDisplay {
    pub template: Template,
    pub override_value: Option<Vec<u8>>,
}

/// The authentication of a recipe as it is shown, with what the user has
/// put in its place, if anything.
#[derive(Debug)]
pub struct AuthenticationDisplay {
    pub authentication: Authentication<Template>,
    pub override_value: Option<Authentication<String>>,
}

/// A recipe as it is shown, with everything the user can set for a build
/// of it. It belongs to one recipe under one profile and is made anew
/// when either changes.
#[derive(Debug)]
pub struct RecipeDisplay {
    pub tab: Tab,
    pub url: Template,
    pub method: Method,
    pub query: RecipeFieldTable,
    pub headers: RecipeFieldTable,
    pub body: Option<RecipeBodyDisplay>,
    pub authentication: Option<AuthenticationDisplay>,
}

/// What the user has put in place of the authentication.
pub open spec fn authentication_override(display: Option<AuthenticationDisplay>) -> Option<
    Authentication<Seq<char>>,
> {
    match display {
        Some(display) => display.override_value.deep_view(),
        None => None,
    }
}

/// What the user has put in place of the body.
pub open spec fn body_override(display: Option<RecipeBodyDisplay>) -> Option<Seq<u8>> {
    match display {
        Some(display) => display.override_value.deep_view(),
        None => None,
    }
}

fn duplicate_authentication(authentication: &Authentication<Template>) -> (copy: Authentication<
    Template,
>)
    ensures
        copy.deep_view() == authentication.deep_view(),
{
    match authentication {
        Authentication::Basic { username, password } => Authentication::Basic {
            username: username.duplicate(),
            password: match password {
                Some(password) => Some(password.duplicate()),
                None => None,
            },
        },
        Authentication::Bearer(token) => Authentication::Bearer(token.duplicate()),
    }
}

fn duplicate_rendered(authentication: &Authentication<String>) -> (copy: Authentication<String>)
    ensures
        copy.deep_view() == authentication.deep_view(),
{
    match authentication {
        Authentication::Basic { username, password } => Authentication::Basic {
            username: username.clone(),
            password: match password {
                Some(password) => Some(password.clone()),
                None => None,
            },
        },
        Authentication::Bearer(token) => Authentication::Bearer(token.clone()),
    }
}

impl RecipeDisplay {
    /// The display of a recipe as the user first sees it: the body tab, all
    /// query parameters and headers switched on, nothing put in place of
    /// the body or the authentication.
    pub fn new(recipe: &Recipe) -> (display: Self)
        ensures
            display.tab == Tab::Body,
            display.method == recipe.method,
            display.url.deep_view() == recipe.url.deep_view(),
            display.query.fields() == recipe.query.deep_view(),
            display.headers.fields() == recipe.headers.deep_view(),
            switched_off(display.query.fields(), display.query.switches()) == Seq::<
                Seq<char>,
            >::empty(),
            switched_off(display.headers.fields(), display.headers.switches()) == Seq::<
                Seq<char>,
            >::empty(),
            display.body is Some <==> recipe.body is Some,
            display.authentication is Some <==> recipe.authentication is Some,
            body_override(display.body) is None,
            authentication_override(display.authentication) is None,
    {
        let query = RecipeFieldTable::new(&recipe.query);
        let headers = RecipeFieldTable::new(&recipe.headers);
        proof {
            lemma_all_on(query.fields(), query.switches());
            lemma_all_on(headers.fields(), headers.switches());
        }
        RecipeDisplay {
            tab: Tab::Body,
            url: recipe.url.duplicate(),
            method: recipe.method,
            query,
            headers,
            body: match &recipe.body {
                Some(body) => Some(
                    RecipeBodyDisplay { template: body.duplicate(), override_value: None },
                ),
                None => None,
            },
            authentication: match &recipe.authentication {
                Some(authentication) => Some(
                    AuthenticationDisplay {
                        authentication: duplicate_authentication(authentication),
                        override_value: None,
                    },
                ),
                None => None,
            },
        }
    }

    /// The options for a build of the recipe as the user has set it: the
    /// names of the headers and query parameters that are switched off, and
    /// what was put in place of the authentication and of the body. A
    /// recipe's body is no form, so no form field is replaced.
    pub fn build_options(&self) -> (options: BuildOptions)
        ensures
            options.disabled_headers.deep_view() == switched_off(
                self.headers.fields(),
                self.headers.switches(),
            ),
            options.disabled_query_parameters.deep_view() == switched_off(
                self.query.fields(),
                self.query.switches(),
            ),
            options.authentication_override.deep_view() == authentication_override(self.authentication),
            options.body_override.deep_view() == body_override(self.body),
            options.form_field_overrides@.len() == 0,
    {
        let authentication = match &self.authentication {
            Some(display) => match &display.override_value {
                Some(authentication) => Some(duplicate_rendered(authentication)),
                None => None,
            },
            None => None,
        };
        let body = match &self.body {
            Some(display) => match &display.override_value {
                Some(body) => Some(copy_bytes(body)),
                None => None,
            },
            None => None,
        };
        BuildOptions {
            authentication_override: authentication,
            disabled_headers: self.headers.to_build_overrides(),
            disabled_query_parameters: self.query.to_build_overrides(),
            form_field_overrides: Vec::new(),
            body_override: body,
        }
    }

    /// Does the recipe have a body defined?
    pub fn has_body(&self) -> (has: bool)
        ensures
            has == self.body is Some,
    {
        self.body.is_some()
    }

    /// The text of the body as the recipe gives it.
    pub fn body_text(&self) -> (text: Option<&str>)
        ensures
            text.deep_view() == match self.body {
                Some(body) => Some(body.template.deep_view()),
                None => None,
            },
    {
        match &self.body {
            Some(body) => Some(body.template.source.as_str()),
            None => None,
        }
    }
}

/// A table with every switch on has no field switched off.
pub proof fn lemma_all_on(fields: Seq<Entry>, switched_on: Seq<bool>)
    requires
        fields.len() == switched_on.len(),
        forall|i: int| 0 <= i < switched_on.len() ==> #[trigger] switched_on[i],
    ensures
        switched_off(fields, switched_on) == Seq::<Seq<char>>::empty(),
    decreases fields.len(),
{
    if fields.len() > 0 {
        lemma_all_on(fields.drop_last(), switched_on.drop_last());
    }
}

/// A build with the options of a table sends a field exactly when no
/// field of its name is switched off.
pub proof fn lemma_switched_off_is_disabled(fields: Seq<Entry>, switched_on: Seq<bool>, at: int)
    requires
        fields.len() == switched_on.len(),
        0 <= at < fields.len(),
    ensures
        enabled(fields, switched_off(fields, switched_on)).contains(fields[at]) <==> !exists|i: int|
            0 <= i < fields.len() && (#[trigger] fields[i]).0 == fields[at].0 && !switched_on[i],
{
    let disabled = switched_off(fields, switched_on);
    lemma_switched_off(fields, switched_on, fields[at].0);
    lemma_enabled(fields, disabled);
    if enabled(fields, disabled).contains(fields[at]) {
        let k = choose|k: int|
            0 <= k < enabled(fields, disabled).len() && enabled(fields, disabled)[k] == fields[at];
        assert(!disabled.contains(enabled(fields, disabled)[k].0));
    }
}

} // verus!
