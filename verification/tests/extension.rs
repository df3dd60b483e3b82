use http::header::{HeaderMap, HeaderValue};
use lambda_web_adapter::{
    next_event_request, register_request, runtime_api, Environment, ExtensionError,
    ExtensionMethod,
};

fn identified(identifier: &str) -> HeaderMap<HeaderValue> {
    let mut headers = HeaderMap::new();
    headers.insert(
        "Lambda-Extension-Identifier",
        HeaderValue::from_bytes(identifier.as_bytes()).unwrap(),
    );
    headers
}

#[test]
fn runtime_api_has_a_default() {
    let mut environment = Environment::new();
    assert_eq!(runtime_api(&environment), "127.0.0.1:9001");
    environment.set("AWS_LAMBDA_RUNTIME_API".to_string(), "10.0.0.1:80".to_string());
    assert_eq!(runtime_api(&environment), "10.0.0.1:80");
}

#[test]
fn registration_is_posted() {
    let request = match register_request("127.0.0.1:9001") {
        Ok(request) => request,
        Err(_) => panic!("the address makes a URI"),
    };
    assert_eq!(request.method, ExtensionMethod::Post);
    assert_eq!(request.uri, "http://127.0.0.1:9001/2020-01-01/extension/register");
    assert_eq!(request.header_name, "Lambda-Extension-Name");
    assert_eq!(request.header_value.as_bytes(), b"lambda-adapter");
    assert_eq!(request.body, "{ \"events\": [] }");
}

#[test]
fn registration_needs_an_address() {
    assert!(matches!(register_request("a b"), Err(ExtensionError::InvalidUrl(_))));
}

#[test]
fn next_event_is_asked_for_under_the_identifier() {
    let mut headers = identified("first");
    headers.append("Lambda-Extension-Identifier", HeaderValue::from_static("second"));
    let request = match next_event_request("127.0.0.1:9001", 200, &headers) {
        Ok(request) => request,
        Err(_) => panic!("the registration was accepted"),
    };
    assert_eq!(request.method, ExtensionMethod::Get);
    assert_eq!(request.uri, "http://127.0.0.1:9001/2020-01-01/extension/event/next");
    assert_eq!(request.header_name, "Lambda-Extension-Identifier");
    assert_eq!(request.header_value.as_bytes(), b"first");
    assert_eq!(request.body, "");
}

#[test]
fn rejected_registration() {
    for status in [201, 400, 500] {
        assert!(matches!(
            next_event_request("127.0.0.1:9001", status, &identified("id")),
            Err(ExtensionError::Rejected(code)) if code == status
        ));
    }
}

#[test]
fn registration_without_an_identifier() {
    assert!(matches!(
        next_event_request("127.0.0.1:9001", 200, &HeaderMap::new()),
        Err(ExtensionError::NoIdentifier)
    ));
}

#[test]
fn next_event_needs_an_address() {
    assert!(matches!(
        next_event_request("a b", 200, &identified("id")),
        Err(ExtensionError::InvalidUrl(_))
    ));
}
