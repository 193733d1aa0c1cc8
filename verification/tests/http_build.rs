use slumber::collection::{Authentication, Method, ProfileId, Recipe, RecipeId, Template};
use slumber::config::Config;
use slumber::http::models::{
    BuildErrorKind, BuildOptions, RequestId, RequestRecord, RequestSeed,
};
use slumber::http::plan::{RenderPlan, Rendered};
use slumber::http::{ClientKind, HttpEngine};

/// Resolves `{{name}}` against the pairs; an unknown name fails.
fn render(template: &Template, context: &[(&str, &str)]) -> Result<String, String> {
    let mut output = String::new();
    let mut rest = template.source.as_str();
    while let Some(start) = rest.find("{{") {
        output.push_str(&rest[..start]);
        let end = match rest[start..].find("}}") {
            Some(end) => start + end,
            None => return Err("unclosed key".to_string()),
        };
        let name = rest[start + 2..end].trim();
        match context.iter().find(|(key, _)| *key == name) {
            Some((_, value)) => output.push_str(value),
            None => return Err(format!("Unknown field `{name}`")),
        }
        rest = &rest[end + 2..];
    }
    output.push_str(rest);
    Ok(output)
}

fn render_plan(plan: &RenderPlan, context: &[(&str, &str)]) -> Rendered {
    Rendered {
        url: plan.url.as_ref().map(|template| render(template, context)),
        query: plan.query.iter().map(|(_, template)| render(template, context)).collect(),
        headers: plan
            .headers
            .iter()
            .map(|(_, template)| render(template, context).map(String::into_bytes))
            .collect(),
        authentication: plan
            .authentication
            .iter()
            .map(|template| render(template, context))
            .collect(),
        body: plan
            .body
            .as_ref()
            .map(|template| render(template, context).map(String::into_bytes)),
    }
}

fn context() -> Vec<(&'static str, &'static str)> {
    vec![
        ("host", "http://localhost"),
        ("mode", "sudo"),
        ("user_id", "1"),
        ("group_id", "3"),
        ("token", "hunter2"),
    ]
}

fn recipe() -> Recipe {
    Recipe {
        id: RecipeId::new("recipe1"),
        method: Method::Get,
        url: Template::new("http://localhost/url"),
        query: vec![],
        headers: vec![],
        authentication: None,
        body: None,
    }
}

fn pair(name: &str, template: &str) -> (String, Template) {
    (name.to_string(), Template::new(template))
}

fn header(name: &str, value: &str) -> (String, Vec<u8>) {
    (name.to_string(), value.as_bytes().to_vec())
}

fn engine() -> HttpEngine {
    HttpEngine::new(&Config::new()).unwrap()
}

fn profile() -> Option<ProfileId> {
    Some(ProfileId::new("profile1"))
}

fn build(recipe: Recipe, options: BuildOptions, context: &[(&str, &str)]) -> RequestRecord {
    let seed = RequestSeed::new(RequestId(7), recipe, options);
    let rendered = render_plan(&seed.plan(), context);
    engine().build(seed, profile(), &rendered).unwrap().record
}

#[test]
fn test_build_request() {
    let recipe = Recipe {
        method: Method::Post,
        url: Template::new("{{host}}/users/{{user_id}}"),
        query: vec![pair("mode", "{{mode}}"), pair("fast", "true")],
        headers: vec![
            pair("Accept", "application/json"),
            pair("Content-Type", "application/json"),
        ],
        body: Some(Template::new("{\"group_id\":\"{{group_id}}\"}")),
        ..recipe()
    };
    let record = build(recipe, BuildOptions::new(), &context());
    assert_eq!(record.id, RequestId(7));
    assert_eq!(record.profile_id, profile());
    assert_eq!(record.recipe_id, RecipeId::new("recipe1"));
    assert_eq!(record.method, Method::Post);
    assert_eq!(record.url.as_str(), "http://localhost/users/1?mode=sudo&fast=true");
    assert_eq!(record.body, Some(b"{\"group_id\":\"3\"}".to_vec()));
    assert_eq!(
        record.headers,
        vec![header("accept", "application/json"), header("content-type", "application/json")]
    );
}

#[test]
fn test_build_url() {
    let recipe = Recipe {
        url: Template::new("{{host}}/users/{{user_id}}"),
        query: vec![pair("mode", "{{mode}}"), pair("fast", "true")],
        ..recipe()
    };
    let seed = RequestSeed::new(RequestId(1), recipe, BuildOptions::new());
    let rendered = render_plan(&seed.plan_url(), &context());
    let url = engine().build_url(seed, profile(), &rendered).unwrap();
    assert_eq!(url.as_str(), "http://localhost/users/1?mode=sudo&fast=true");
}

#[test]
fn test_build_body() {
    let recipe = Recipe {
        body: Some(Template::new(r#"{"group_id":"{{group_id}}"}"#)),
        ..recipe()
    };
    let seed = RequestSeed::new(RequestId(1), recipe, BuildOptions::new());
    let rendered = render_plan(&seed.plan_body(), &context());
    let body = engine().build_body(seed, profile(), &rendered).unwrap();
    assert_eq!(body.as_deref(), Some(br#"{"group_id":"3"}"#.as_slice()));
}

fn authenticated(authentication: Authentication<Template>) -> RequestRecord {
    let context = [("username", "user"), ("password", "hunter2"), ("token", "token!")];
    let recipe = Recipe { authentication: Some(authentication), ..recipe() };
    build(recipe, BuildOptions::new(), &context)
}

#[test]
fn test_authentication() {
    let record = authenticated(Authentication::Basic {
        username: Template::new("{{username}}"),
        password: Some(Template::new("{{password}}")),
    });
    assert_eq!(record.method, Method::Get);
    assert_eq!(record.url.as_str(), "http://localhost/url");
    assert_eq!(record.headers, vec![header("authorization", "Basic dXNlcjpodW50ZXIy")]);
    assert_eq!(record.body, None);
}

#[test]
fn test_authentication_basic_no_password() {
    let record = authenticated(Authentication::Basic {
        username: Template::new("{{username}}"),
        password: None,
    });
    assert_eq!(record.headers, vec![header("authorization", "Basic dXNlcjo=")]);
}

#[test]
fn test_authentication_bearer() {
    let record = authenticated(Authentication::Bearer(Template::new("{{token}}")));
    assert_eq!(record.headers, vec![header("authorization", "Bearer token!")]);
}

#[test]
fn test_disable_headers_and_query_params() {
    let recipe = Recipe {
        query: vec![pair("mode", "sudo"), pair("fast", "true")],
        headers: vec![
            pair("Accept", "application/json"),
            pair("Content-Type", "application/json"),
        ],
        ..recipe()
    };
    let options = BuildOptions {
        disabled_headers: vec!["Content-Type".to_owned()],
        disabled_query_parameters: vec!["fast".to_owned()],
        ..BuildOptions::new()
    };
    let record = build(recipe, options, &context());
    assert_eq!(record.method, Method::Get);
    assert_eq!(record.url.as_str(), "http://localhost/url?mode=sudo");
    assert_eq!(record.headers, vec![header("accept", "application/json")]);
    assert_eq!(record.body, None);
}

#[test]
fn test_render_headers_strip() {
    let recipe = Recipe {
        headers: vec![pair("Accept", "application/json"), pair("Host", "\n{{host}}\n")],
        ..recipe()
    };
    let seed = RequestSeed::new(RequestId(1), recipe, BuildOptions::new());
    let rendered = render_plan(&seed.plan(), &context());
    let headers = seed.recipe.render_headers(&seed.options, &rendered.headers).unwrap();
    assert_eq!(
        headers,
        vec![header("accept", "application/json"), header("host", "http://localhost")]
    );
}

#[test]
fn disabled_fields_are_never_planned() {
    let recipe = Recipe {
        query: vec![pair("mode", "sudo"), pair("fast", "{{missing}}")],
        headers: vec![pair("Accept", "{{missing}}"), pair("X-Kept", "1")],
        ..recipe()
    };
    let options = BuildOptions {
        disabled_headers: vec!["Accept".to_owned()],
        disabled_query_parameters: vec!["fast".to_owned()],
        ..BuildOptions::new()
    };
    let seed = RequestSeed::new(RequestId(1), recipe, options);
    let plan = seed.plan();
    assert_eq!(plan.query, vec![pair("mode", "sudo")]);
    assert_eq!(plan.headers, vec![pair("X-Kept", "1")]);
    // The templates that would fail are never rendered, so the build succeeds
    let rendered = render_plan(&plan, &context());
    let record = engine().build(seed, None, &rendered).unwrap().record;
    assert_eq!(record.url.as_str(), "http://localhost/url?mode=sudo");
    assert_eq!(record.headers, vec![header("x-kept", "1")]);
    assert_eq!(record.profile_id, None);
}

#[test]
fn partial_plans_leave_out_other_facets() {
    let recipe = Recipe {
        url: Template::new("{{host}}/x"),
        query: vec![pair("a", "1")],
        headers: vec![pair("Accept", "{{missing}}")],
        authentication: Some(Authentication::Bearer(Template::new("{{missing}}"))),
        body: Some(Template::new("body")),
        ..recipe()
    };
    let seed = RequestSeed::new(RequestId(1), recipe, BuildOptions::new());
    let url_plan = seed.plan_url();
    assert!(url_plan.url.is_some());
    assert_eq!(url_plan.query, vec![pair("a", "1")]);
    assert!(url_plan.headers.is_empty());
    assert!(url_plan.authentication.is_empty());
    assert!(url_plan.body.is_none());
    let body_plan = seed.plan_body();
    assert!(body_plan.url.is_none());
    assert!(body_plan.query.is_empty());
    assert!(body_plan.headers.is_empty());
    assert!(body_plan.authentication.is_empty());
    assert_eq!(body_plan.body, Some(Template::new("body")));
    let full = seed.plan();
    assert_eq!(full.authentication, vec![Template::new("{{missing}}")]);
}

#[test]
fn end_to_end_build() {
    let recipe = Recipe {
        method: Method::Post,
        url: Template::new("{{host}}/users/{{id}}"),
        query: vec![pair("mode", "{{mode}}")],
        headers: vec![pair("Accept", "application/json")],
        body: Some(Template::new("{\"id\":\"{{id}}\"}")),
        ..recipe()
    };
    let context = [("host", "http://localhost"), ("id", "1"), ("mode", "sudo")];
    let record = build(recipe, BuildOptions::new(), &context);
    assert_eq!(record.url.as_str(), "http://localhost/users/1?mode=sudo");
    assert_eq!(record.body, Some(b"{\"id\":\"1\"}".to_vec()));
    assert_eq!(record.method, Method::Post);
}

#[test]
fn end_to_end_invalid_url() {
    let recipe = Recipe { url: Template::new("{{text}}"), ..recipe() };
    let seed = RequestSeed::new(RequestId(9), recipe, BuildOptions::new());
    let rendered = render_plan(&seed.plan(), &[("text", "not a url")]);
    let failure = engine().build(seed, profile(), &rendered).unwrap_err();
    assert_eq!(failure.id, RequestId(9));
    assert_eq!(failure.recipe_id, RecipeId::new("recipe1"));
    assert_eq!(failure.profile_id, profile());
    assert_eq!(failure.error.kind, BuildErrorKind::InvalidUrl);
    assert_eq!(failure.error.subject, "not a url");
    assert_eq!(failure.error.context(), "Invalid URL: `not a url`");
    assert_eq!(
        failure.message(),
        "Error building request: Invalid URL: `not a url`: relative URL without a base"
    );
}

#[test]
fn hostname_routing() {
    let config = Config { ignore_certificate_hosts: vec!["h1".to_owned(), "".to_owned()] };
    let engine = HttpEngine::new(&config).unwrap();
    let kind = |url: &str| {
        let recipe = Recipe { url: Template::new(url), ..recipe() };
        let seed = RequestSeed::new(RequestId(1), recipe, BuildOptions::new());
        let rendered = render_plan(&seed.plan(), &[]);
        let url = seed.recipe.render_url(&rendered.url).unwrap();
        engine.client_kind(&url)
    };
    assert_eq!(kind("https://h1/x"), ClientKind::Danger);
    assert_eq!(kind("https://h2/x"), ClientKind::Standard);
    assert_eq!(kind("https://h1.example/x"), ClientKind::Standard);
    assert_eq!(kind("https://sub.h1/x"), ClientKind::Standard);
    assert_eq!(kind("https://H1/x"), ClientKind::Danger);
    assert_eq!(kind("data:text/plain,h1"), ClientKind::Standard);
    assert_eq!(kind("unix:/run/h1"), ClientKind::Standard);

    let recipe = Recipe { url: Template::new("https://h1/x"), ..recipe() };
    let seed = RequestSeed::new(RequestId(1), recipe, BuildOptions::new());
    let rendered = render_plan(&seed.plan(), &[]);
    let ticket = engine.build(seed, None, &rendered).unwrap();
    assert_eq!(ticket.kind, ClientKind::Danger);
}
