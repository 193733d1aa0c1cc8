use slumber::collection::{Method, Recipe, RecipeId, Template};
use slumber::config::Config;
use slumber::http::models::{BuildOptions, RequestId, RequestSeed, ResponseRecord};
use slumber::http::plan::Rendered;
use slumber::http::{HttpEngine, RequestTicket};

fn ticket(url: &str) -> RequestTicket {
    let recipe = Recipe {
        id: RecipeId::new("r"),
        method: Method::Get,
        url: Template::new(url),
        query: vec![],
        headers: vec![("Accept".to_owned(), Template::new("*/*"))],
        authentication: None,
        body: None,
    };
    let seed = RequestSeed::new(RequestId(11), recipe, BuildOptions::new());
    let rendered = Rendered {
        url: Some(Ok(url.to_owned())),
        headers: vec![Ok(b"*/*".to_vec())],
        ..Rendered::new()
    };
    HttpEngine::new(&Config::new()).unwrap().build(seed, None, &rendered).unwrap()
}

fn native(ticket: &RequestTicket) -> reqwest::Request {
    let record = &ticket.record;
    let method = reqwest::Method::from_bytes(record.method.as_str().as_bytes()).unwrap();
    let mut request = reqwest::Request::new(method, record.url.as_str().parse().unwrap());
    for (name, value) in &record.headers {
        request.headers_mut().append(
            reqwest::header::HeaderName::from_bytes(name.as_bytes()).unwrap(),
            reqwest::header::HeaderValue::from_bytes(value).unwrap(),
        );
    }
    if let Some(body) = &record.body {
        *request.body_mut() = Some(body.clone().into());
    }
    request
}

async fn carry(ticket: &RequestTicket) -> Result<ResponseRecord, String> {
    let response = ticket.client.execute(native(ticket)).await.map_err(|e| e.to_string())?;
    let status = response.status().as_u16();
    let headers = response
        .headers()
        .iter()
        .map(|(name, value)| (name.as_str().to_owned(), value.as_bytes().to_vec()))
        .collect();
    let body = response.bytes().await.map_err(|e| e.to_string())?.to_vec();
    Ok(ResponseRecord::new(status, headers, body))
}

fn runtime() -> tokio::runtime::Runtime {
    tokio::runtime::Builder::new_current_thread().enable_all().build().unwrap()
}

#[test]
fn send_gives_exchange() {
    let ticket = ticket("http://localhost/get");
    let record_url = ticket.record.url.as_str().to_owned();
    let response = ResponseRecord::new(200, vec![], b"hello!".to_vec());
    let exchange = ticket.send(100, 250, Ok(response)).unwrap();
    assert_eq!(exchange.id(), RequestId(11));
    assert_eq!(exchange.request().id, RequestId(11));
    assert_eq!(exchange.request().url.as_str(), record_url);
    assert_eq!(exchange.response().status, 200);
    assert_eq!(exchange.response().body, b"hello!".to_vec());
    assert_eq!(exchange.start_time(), 100);
    assert_eq!(exchange.end_time(), 250);
}

#[test]
fn send_gives_request_error() {
    let built = ticket("http://localhost/get");
    let again = ticket("http://localhost/get");
    let error = built.send(100, 250, Err("connection refused".to_owned())).unwrap_err();
    assert_eq!(error.request(), &again.record);
    assert_eq!(error.start_time(), 100);
    assert_eq!(error.end_time(), 250);
    assert_eq!(error.error(), "connection refused");
    assert_eq!(error.message(), "Request failed: connection refused");
}

#[test]
fn clock_that_stepped_back() {
    let exchange =
        ticket("http://localhost/").send(300, 200, Ok(ResponseRecord::new(204, vec![], vec![])));
    let exchange = exchange.unwrap();
    assert_eq!((exchange.start_time(), exchange.end_time()), (300, 300));
    let error = ticket("http://localhost/").send(-5, -9, Err("x".to_owned())).unwrap_err();
    assert_eq!((error.start_time(), error.end_time()), (-5, -5));
    let error = ticket("http://localhost/").send(7, 7, Err("x".to_owned())).unwrap_err();
    assert_eq!((error.start_time(), error.end_time()), (7, 7));
}

#[test]
fn send_to_unreachable_host() {
    let ticket = ticket("http://127.0.0.1:1/unreachable");
    let built = self::ticket("http://127.0.0.1:1/unreachable").record;
    let start_time = chrono::Utc::now().timestamp_micros();
    let outcome = runtime().block_on(carry(&ticket));
    let end_time = chrono::Utc::now().timestamp_micros();
    assert!(outcome.is_err());
    let error = ticket.send(start_time, end_time, outcome).unwrap_err();
    assert_eq!(error.request(), &built);
    assert!(error.start_time() <= error.end_time());
    assert_eq!(error.start_time(), start_time);
    assert!(error.error().starts_with("error sending request"));
}

#[test]
fn test_send_request() {
    let ticket = ticket("http://localhost/get");
    // What goes over the network is made of the record, one for one
    let request = native(&ticket);
    assert_eq!(request.method(), reqwest::Method::GET);
    assert_eq!(request.url().as_str(), "http://localhost/get");
    let headers: Vec<(&str, &[u8])> = request
        .headers()
        .iter()
        .map(|(name, value)| (name.as_str(), value.as_bytes()))
        .collect();
    assert_eq!(headers, vec![("accept", b"*/*".as_slice())]);
    assert!(request.body().is_none());

    let response = ResponseRecord::new(
        200,
        vec![
            ("connection".to_owned(), b"close".to_vec()),
            ("content-length".to_owned(), b"6".to_vec()),
        ],
        b"hello!".to_vec(),
    );
    let exchange = ticket.send(1, 2, Ok(response)).unwrap();
    assert_eq!(
        exchange.response(),
        &ResponseRecord {
            status: 200,
            headers: vec![
                ("connection".to_owned(), b"close".to_vec()),
                ("content-length".to_owned(), b"6".to_vec()),
            ],
            body: b"hello!".to_vec(),
        }
    );
}

#[test]
fn clients_go_by_the_user_agent() {
    let standard = ticket("http://localhost/");
    let shown = format!("{:?}", standard.client);
    assert!(shown.contains("\"user-agent\": \"slumber/0.1.0\""), "{shown}");
    let config = Config { ignore_certificate_hosts: vec!["localhost".to_owned()] };
    let engine = HttpEngine::new(&config).unwrap();
    let recipe = Recipe {
        id: RecipeId::new("r"),
        method: Method::Get,
        url: Template::new("u"),
        query: vec![],
        headers: vec![],
        authentication: None,
        body: None,
    };
    let seed = RequestSeed::new(RequestId(1), recipe, BuildOptions::new());
    let rendered = Rendered { url: Some(Ok("https://localhost/".to_owned())), ..Rendered::new() };
    let danger = engine.build(seed, None, &rendered).unwrap();
    assert_eq!(danger.kind, slumber::http::ClientKind::Danger);
    let shown = format!("{:?}", danger.client);
    assert!(shown.contains("\"user-agent\": \"slumber/0.1.0\""), "{shown}");
}
