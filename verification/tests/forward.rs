use http::header::{HeaderMap, HeaderName, HeaderValue};
use http::Method;
use lambda_http::request::RequestContext;
use lambda_http::Context;
use lambda_web_adapter::{
    Adapter, AdapterOptions, AppRequest, Environment, FetchError, InboundRequest, LambdaEvent,
};

fn adapter(base_path: Option<&str>) -> Adapter {
    let options = AdapterOptions {
        base_path: base_path.map(|text| text.to_string()),
        ..AdapterOptions::from_environment(&Environment::new())
    };
    match Adapter::try_new(&options) {
        Ok(adapter) => adapter,
        Err(_) => panic!("these options are usable"),
    }
}

fn request(raw_path: &str, query: Option<&str>, headers: HeaderMap<HeaderValue>) -> InboundRequest {
    InboundRequest {
        method: Method::PUT,
        raw_path: raw_path.to_string(),
        query: query.map(|text| text.to_string()),
        headers,
        body: vec![0, 1, 255],
    }
}

fn event(request: InboundRequest) -> LambdaEvent {
    LambdaEvent {
        request,
        request_context: RequestContext::ApiGatewayV2(Default::default()),
        lambda_context: Context::default(),
    }
}

fn sent(outcome: Result<AppRequest, FetchError>) -> AppRequest {
    match outcome {
        Ok(sent) => sent,
        Err(FetchError::Json(_)) => panic!("JSON"),
        Err(FetchError::InvalidHeader(_)) => panic!("header"),
        Err(FetchError::HeadersFull(_)) => panic!("headers"),
        Err(FetchError::InvalidUrl(_)) => panic!("URL"),
    }
}

fn forwarded(adapter: &Adapter, request: InboundRequest) -> AppRequest {
    sent(adapter.forward(request, Ok("{}".to_string()), Ok("[]".to_string())))
}

fn uri(base_path: Option<&str>, raw_path: &str, query: Option<&str>) -> String {
    forwarded(&adapter(base_path), request(raw_path, query, HeaderMap::new())).uri
}

fn json_error() -> serde_json::Error {
    serde_json::from_str::<u8>("x").unwrap_err()
}

#[test]
fn path_and_query_go_to_the_web_server() {
    assert_eq!(uri(None, "/users", None), "http://127.0.0.1:8080/users");
    assert_eq!(uri(None, "/users", Some("a=1&b=2")), "http://127.0.0.1:8080/users?a=1&b=2");
    assert_eq!(uri(None, "", Some("")), "http://127.0.0.1:8080/?");
    assert_eq!(uri(None, "/a b/ü", Some("q='#'")), "http://127.0.0.1:8080/a%20b/%C3%BC?q=%27%23%27");
}

#[test]
fn base_path_does_not_reach_the_web_server() {
    assert_eq!(uri(Some("/v1"), "/v1/users", None), "http://127.0.0.1:8080/users");
    assert_eq!(uri(Some("/v1"), "/v1/v1/users", None), "http://127.0.0.1:8080/users");
    assert_eq!(uri(Some("/v1"), "/v2/users", None), "http://127.0.0.1:8080/v2/users");
    assert_eq!(uri(Some("/v1"), "/v1", None), "http://127.0.0.1:8080/");
    assert_eq!(uri(Some(""), "/v1", None), "http://127.0.0.1:8080/v1");
}

#[test]
fn requests_go_to_the_web_server_whatever_their_path() {
    for path in ["//example.com/x", "@example.com", ":9/x", "/../../x", "\\\\example.com", "?q", "#f"] {
        let uri = url::Url::parse(&uri(None, path, Some("//example.com"))).unwrap();
        assert_eq!(uri.host_str(), Some("127.0.0.1"));
        assert_eq!(uri.port(), Some(8080));
    }
}

#[test]
fn method_and_body_stay() {
    let sent = forwarded(&adapter(None), request("/", None, HeaderMap::new()));
    assert_eq!(sent.method, Method::PUT);
    assert_eq!(sent.body, vec![0, 1, 255]);
}

#[test]
fn contexts_replace_and_the_rest_stays() {
    let mut headers = HeaderMap::new();
    headers.append("accept", HeaderValue::from_static("text/html"));
    headers.append("accept", HeaderValue::from_static("text/plain"));
    headers.append("x-amzn-request-context", HeaderValue::from_static("forged"));
    headers.append("x-amzn-request-context", HeaderValue::from_static("twice"));
    headers.append("X-Amzn-Lambda-Context", HeaderValue::from_static("forged"));
    let sent = forwarded(&adapter(None), request("/", None, headers));
    let values = |name: &str| -> Vec<HeaderValue> {
        sent.headers.get_all(name).iter().cloned().collect()
    };
    assert_eq!(values("accept"), vec!["text/html", "text/plain"]);
    assert_eq!(values("x-amzn-request-context"), vec!["{}"]);
    assert_eq!(values("x-amzn-lambda-context"), vec!["[]"]);
    assert_eq!(sent.headers.keys_len(), 3);
}

#[test]
fn contexts_of_an_event_are_sent_as_json() {
    let event = event(request("/users", None, HeaderMap::new()));
    let request_json = serde_json::to_string(&event.request_context).unwrap();
    let lambda_json = serde_json::to_string(&event.lambda_context).unwrap();
    assert_ne!(request_json, lambda_json);
    let adapter = adapter(None);
    assert!(adapter.request_fits(&event.request));
    let sent = sent(adapter.fetch_request(event));
    assert_eq!(sent.headers["x-amzn-request-context"], request_json);
    assert_eq!(sent.headers["x-amzn-lambda-context"], lambda_json);
    assert_eq!(sent.uri, "http://127.0.0.1:8080/users");
}

#[test]
fn control_characters_of_a_context_are_escaped() {
    let mut event = event(request("/", None, HeaderMap::new()));
    event.lambda_context.request_id = "a\u{1}\nb".to_string();
    let sent = sent(adapter(None).fetch_request(event));
    let json = sent.headers["x-amzn-lambda-context"].to_str().unwrap().to_string();
    assert!(json.contains("a\\u0001\\nb"));
}

#[test]
fn context_with_del_cannot_be_sent() {
    let mut event = event(request("/", None, HeaderMap::new()));
    event.lambda_context.request_id = "\u{7f}".to_string();
    assert!(matches!(adapter(None).fetch_request(event), Err(FetchError::InvalidHeader(_))));
}

#[test]
fn context_with_a_tab_or_outside_ascii_can_be_sent() {
    let outcome = adapter(None).forward(
        request("/", None, HeaderMap::new()),
        Ok("\tü€𝄞".to_string()),
        Ok("".to_string()),
    );
    assert_eq!(sent(outcome).headers["x-amzn-request-context"].as_bytes(), "\tü€𝄞".as_bytes());
}

#[test]
fn first_failure_decides() {
    let adapter = adapter(None);
    let forward = |request_context: Result<String, serde_json::Error>,
                   lambda_context: Result<String, serde_json::Error>,
                   path: &str| {
        adapter.forward(request(path, None, HeaderMap::new()), request_context, lambda_context)
    };
    let good = || Ok("{}".to_string());
    let bad = || Ok("\n".to_string());
    let long = "/a".repeat(40_000);
    assert!(matches!(forward(Err(json_error()), bad(), &long), Err(FetchError::Json(_))));
    assert!(matches!(forward(bad(), Err(json_error()), &long), Err(FetchError::InvalidHeader(_))));
    assert!(matches!(forward(good(), Err(json_error()), &long), Err(FetchError::Json(_))));
    assert!(matches!(forward(good(), bad(), &long), Err(FetchError::InvalidHeader(_))));
    assert!(matches!(forward(good(), good(), &long), Err(FetchError::InvalidUrl(_))));
    assert!(forward(good(), good(), "/").is_ok());
}

fn numbered_headers(count: usize) -> HeaderMap<HeaderValue> {
    let mut headers = HeaderMap::new();
    for number in 0..count {
        let name = HeaderName::from_bytes(format!("x-{}", number).as_bytes()).unwrap();
        headers.insert(name, HeaderValue::from_static(""));
    }
    headers
}

#[test]
fn headers_with_room_take_the_contexts() {
    let sent = forwarded(&adapter(None), request("/", None, numbered_headers(6_552)));
    assert_eq!(sent.headers.keys_len(), 6_554);
}

#[test]
fn headers_without_room() {
    let outcome = adapter(None).forward(
        request("/", None, numbered_headers(24_576)),
        Ok("{}".to_string()),
        Ok("{}".to_string()),
    );
    assert!(matches!(outcome, Err(FetchError::HeadersFull(_))));
}

fn adapter_of_host(host: &str) -> Adapter {
    let options = AdapterOptions {
        host: host.to_string(),
        ..AdapterOptions::from_environment(&Environment::new())
    };
    match Adapter::try_new(&options) {
        Ok(adapter) => adapter,
        Err(_) => panic!("these options are usable"),
    }
}

#[test]
fn path_that_may_be_too_long() {
    let mut request = request("", None, HeaderMap::new());
    request.raw_path = "a".repeat(1_431_655_758);
    let event = event(request);
    let adapter = adapter(None);
    assert!(!adapter.request_fits(&event.request));
    assert!(adapter.try_fetch_request(event).is_none());
}

#[test]
fn query_matters_only_before_a_fragment() {
    let mut request = request("/", None, HeaderMap::new());
    request.query = Some("a".repeat(1_431_655_765));
    assert!(adapter(None).request_fits(&request));
    let adapter = adapter_of_host("a#b");
    assert_eq!(adapter.domain().as_str(), "http://a/#b:8080");
    assert!(!adapter.request_fits(&request));
    assert_eq!(adapter.app_url("/c#d", Some("e#f")), "http://a/c%23d?e%23f#b:8080");
}

#[test]
fn long_query_is_no_uri() {
    let query = "a".repeat(3_000_000);
    let event = event(request("/", Some(&query), HeaderMap::new()));
    assert!(matches!(adapter(None).fetch_request(event), Err(FetchError::InvalidUrl(_))));
}

#[test]
fn long_path_may_become_a_short_url() {
    let path = format!("/{}/../users", "a".repeat(3_000_000));
    let event = event(request(&path, None, HeaderMap::new()));
    assert_eq!(sent(adapter(None).fetch_request(event)).uri, "http://127.0.0.1:8080/users");
}

#[test]
fn long_path_that_fits() {
    let event = event(request(&"a".repeat(90_000_000), None, HeaderMap::new()));
    let adapter = adapter(None);
    assert!(adapter.request_fits(&event.request));
    assert!(matches!(adapter.try_fetch_request(event), Some(Err(FetchError::InvalidUrl(_)))));
}

#[test]
fn only_what_is_left_of_the_path_has_to_fit() {
    let base_path = "/a".repeat(1_000);
    let mut request = request("", None, HeaderMap::new());
    request.raw_path = base_path.repeat(720_000);
    let adapter = adapter(Some(&base_path));
    assert_eq!(adapter.app_path(&request.raw_path), "");
    assert!(adapter.request_fits(&request));
    let event = event(request);
    match adapter.try_fetch_request(event) {
        Some(outcome) => assert_eq!(sent(outcome).uri, "http://127.0.0.1:8080/"),
        None => panic!("nothing is left of the path"),
    }
}

#[test]
fn one_more_base_path_sends_the_same() {
    let adapter = adapter(Some("/v1"));
    let fetch = |path: &str| {
        sent(adapter.fetch_request(event(request(path, Some("q=1"), HeaderMap::new()))))
    };
    let left = fetch("/v1/users");
    let right = fetch("/v1/v1/users");
    assert_eq!(left.uri, "http://127.0.0.1:8080/users?q=1");
    assert_eq!(right.uri, left.uri);
    assert_eq!(right.method, left.method);
    assert_eq!(right.body, left.body);
}

#[test]
fn host_whose_url_does_not_parse_again() {
    let host: String =
        (0..1000u32).rev().map(|k| char::from_u32(0x4e00 + 20 * k).unwrap()).collect();
    let adapter = adapter_of_host(&host);
    assert!(url::Url::parse(adapter.domain().as_str()).is_err());
    let url = adapter.app_url("/users", None);
    assert_eq!(url, format!("{}users", adapter.domain().as_str()));
}

#[test]
fn path_that_fits() {
    let event = event(request("/users", None, HeaderMap::new()));
    match adapter(None).try_fetch_request(event) {
        Some(outcome) => assert_eq!(sent(outcome).uri, "http://127.0.0.1:8080/users"),
        None => panic!("the path is short"),
    }
}

#[test]
fn application_urls() {
    let adapter = adapter(Some("/v1"));
    assert_eq!(adapter.base_path(), Some("/v1"));
    assert_eq!(adapter.app_url("/v1/a", Some("b")), "http://127.0.0.1:8080/a?b");
}

#[test]
fn base_path_of_the_environment() {
    let mut environment = Environment::new();
    let url = |environment: &Environment| {
        Adapter::new(&AdapterOptions::from_environment(environment)).app_url("/v1/v2/a", None)
    };
    assert_eq!(url(&environment), "http://127.0.0.1:8080/v1/v2/a");
    environment.set("REMOVE_BASE_PATH".to_string(), "/v1".to_string());
    assert_eq!(url(&environment), "http://127.0.0.1:8080/v2/a");
    environment.set("AWS_LWA_REMOVE_BASE_PATH".to_string(), "/v1/v2".to_string());
    assert_eq!(url(&environment), "http://127.0.0.1:8080/a");
}
