//! Registering the adapter as a Lambda extension, so that it is started before the function.
//!
//! Two requests go to the runtime API: one that registers the extension, and, once that was
//! accepted, one that asks for the next event.

use crate::environment::{text_or, unwrap_text, value_of, Environment};
use crate::headers::{first_header, header_values, law_header_values_by_character, value_bytes};
use crate::server_url::{check_uri, uri_accepts};
use http::header::{HeaderMap, HeaderValue};
use http::uri::InvalidUri;
use vstd::prelude::*;
use vstd::string::*;
use vstd::utf8::encode_utf8;

verus! {

/// The method of a request to the runtime API.
#[derive(Clone, Copy, Debug, Eq, PartialEq, Structural)]
pub enum ExtensionMethod {
    Get,
    Post,
}

/// A request to the runtime API, with its one header.
pub struct ExtensionRequest {
    pub method: ExtensionMethod,
    pub uri: String,
    pub header_name: String,
    pub header_value: HeaderValue,
    pub body: String,
}

/// Why a registration cannot be completed.
pub enum ExtensionError {
    /// The runtime API answered with another status than 200.
    Rejected(u16),
    /// The answer holds no identifier.
    NoIdentifier,
    /// The address of the runtime API does not make a URI.
    InvalidUrl(InvalidUri),
}

/// The status with which a registration is accepted.
pub const ACCEPTED_STATUS: u16 = 200;

/// The address of the runtime API.
pub open spec fn runtime_api_of(environment: Map<Seq<char>, Seq<char>>) -> Seq<char> {
    text_or(value_of(environment, "AWS_LAMBDA_RUNTIME_API"@), "127.0.0.1:9001"@)
}

/// The URI of the request that registers the extension.
pub open spec fn register_uri(runtime_api: Seq<char>) -> Seq<char> {
    "http://"@ + runtime_api + "/2020-01-01/extension/register"@
}

/// The URI of the request that asks for the next event.
pub open spec fn next_event_uri(runtime_api: Seq<char>) -> Seq<char> {
    "http://"@ + runtime_api + "/2020-01-01/extension/event/next"@
}

/// Whether a request registers the extension, for no events.
pub open spec fn is_register_request(request: ExtensionRequest, runtime_api: Seq<char>) -> bool {
    &&& request.method == ExtensionMethod::Post
    &&& request.uri@ == register_uri(runtime_api)
    &&& request.header_name@ == "Lambda-Extension-Name"@
    &&& value_bytes(request.header_value) == encode_utf8("lambda-adapter"@)
    &&& request.body@ == "{ \"events\": [] }"@
}

/// Whether a request asks for the next event under the given identifier.
pub open spec fn is_next_event_request(
    request: ExtensionRequest,
    runtime_api: Seq<char>,
    identifier: Seq<u8>,
) -> bool {
    &&& request.method == ExtensionMethod::Get
    &&& request.uri@ == next_event_uri(runtime_api)
    &&& request.header_name@ == "Lambda-Extension-Identifier"@
    &&& value_bytes(request.header_value) == identifier
    &&& request.body@ == Seq::<char>::empty()
}

/// The address of the runtime API.
pub fn runtime_api(environment: &Environment) -> (address: String)
    ensures
        address@ == runtime_api_of(environment@),
        environment@.contains_key("AWS_LAMBDA_RUNTIME_API"@) ==> address@
            == environment@["AWS_LAMBDA_RUNTIME_API"@],
        !environment@.contains_key("AWS_LAMBDA_RUNTIME_API"@) ==> address@ == "127.0.0.1:9001"@,
{
    unwrap_text(environment.get("AWS_LAMBDA_RUNTIME_API"), "127.0.0.1:9001")
}

/// The request that registers the extension.
pub fn register_request(runtime_api: &str) -> (request: Result<ExtensionRequest, ExtensionError>)
    ensures
        match request {
            Ok(request) => {
                &&& uri_accepts(register_uri(runtime_api@))
                &&& is_register_request(request, runtime_api@)
            },
            Err(ExtensionError::InvalidUrl(_)) => !uri_accepts(register_uri(runtime_api@)),
            Err(_) => false,
        },
        request is Ok <==> uri_accepts(
            "http://"@ + runtime_api@ + "/2020-01-01/extension/register"@,
        ),
        request matches Ok(request) ==> request.uri@ == "http://"@ + runtime_api@
            + "/2020-01-01/extension/register"@,
{
    let uri: String = "http://".to_string().concat(runtime_api).concat(
        "/2020-01-01/extension/register",
    );
    match check_uri(uri.as_str()) {
        Ok(_) => {},
        Err(error) => {
            return Err(ExtensionError::InvalidUrl(error));
        },
    }
    proof {
        reveal_strlit("lambda-adapter");
        law_header_values_by_character("lambda-adapter"@);
    }
    let name: HeaderValue = HeaderValue::from_bytes("lambda-adapter".as_bytes()).unwrap();
    Ok(
        ExtensionRequest {
            method: ExtensionMethod::Post,
            uri,
            header_name: "Lambda-Extension-Name".to_string(),
            header_value: name,
            body: "{ \"events\": [] }".to_string(),
        },
    )
}

/// The request that asks for the next event, once the registration was answered with `status` and
/// `headers`.
pub fn next_event_request(
    runtime_api: &str,
    status: u16,
    headers: &HeaderMap<HeaderValue>,
) -> (request: Result<ExtensionRequest, ExtensionError>)
    ensures
        match request {
            Ok(request) => {
                &&& status == ACCEPTED_STATUS
                &&& header_values(*headers).contains_key("lambda-extension-identifier"@)
                &&& uri_accepts(next_event_uri(runtime_api@))
                &&& is_next_event_request(
                    request,
                    runtime_api@,
                    header_values(*headers)["lambda-extension-identifier"@][0],
                )
            },
            Err(ExtensionError::Rejected(code)) => code == status && status != ACCEPTED_STATUS,
            Err(ExtensionError::NoIdentifier) => {
                &&& status == ACCEPTED_STATUS
                &&& !header_values(*headers).contains_key("lambda-extension-identifier"@)
            },
            Err(ExtensionError::InvalidUrl(_)) => {
                &&& status == ACCEPTED_STATUS
                &&& header_values(*headers).contains_key("lambda-extension-identifier"@)
                &&& !uri_accepts(next_event_uri(runtime_api@))
            },
        },
        request is Ok <==> {
            &&& status == 200
            &&& header_values(*headers).contains_key("lambda-extension-identifier"@)
            &&& uri_accepts("http://"@ + runtime_api@ + "/2020-01-01/extension/event/next"@)
        },
        request matches Ok(request) ==> request.uri@ == "http://"@ + runtime_api@
            + "/2020-01-01/extension/event/next"@,
        request matches Ok(request) ==> value_bytes(request.header_value)
            == header_values(*headers)["lambda-extension-identifier"@][0],
{
    if status != ACCEPTED_STATUS {
        return Err(ExtensionError::Rejected(status));
    }
    proof {
        reveal_strlit("lambda-extension-identifier");
    }
    let identifier: HeaderValue = match first_header(headers, "lambda-extension-identifier") {
        Some(identifier) => identifier,
        None => {
            return Err(ExtensionError::NoIdentifier);
        },
    };
    let uri: String = "http://".to_string().concat(runtime_api).concat(
        "/2020-01-01/extension/event/next",
    );
    match check_uri(uri.as_str()) {
        Ok(_) => Ok(
            ExtensionRequest {
                method: ExtensionMethod::Get,
                uri,
                header_name: "Lambda-Extension-Identifier".to_string(),
                header_value: identifier,
                body: String::new(),
            },
        ),
        Err(error) => Err(ExtensionError::InvalidUrl(error)),
    }
}

/// The runtime API is where the environment says, whatever else it says, and at a fixed address
/// where it does not say.
pub proof fn law_runtime_api_is_where_the_environment_says(
    environment: Map<Seq<char>, Seq<char>>,
    address: Seq<char>,
)
    ensures
        runtime_api_of(environment.insert("AWS_LAMBDA_RUNTIME_API"@, address)) == address,
        runtime_api_of(environment.remove("AWS_LAMBDA_RUNTIME_API"@)) == "127.0.0.1:9001"@,
{
}

/// A registration is posted to the extension API at the given address under the adapter's name, and
/// asks for no events.
pub proof fn law_registrations_are_posted(request: ExtensionRequest, runtime_api: Seq<char>)
    requires
        is_register_request(request, runtime_api),
    ensures
        request.method == ExtensionMethod::Post,
        request.uri@ == "http://"@ + runtime_api + "/2020-01-01/extension/register"@,
        request.header_name@ == "Lambda-Extension-Name"@,
        value_bytes(request.header_value) == encode_utf8("lambda-adapter"@),
        request.body@ == "{ \"events\": [] }"@,
{
}

/// The next event is asked for at the address of the registration, under the identifier that came
/// back byte for byte, and with nothing in the body.
pub proof fn law_next_events_are_asked_for_under_the_identifier(
    request: ExtensionRequest,
    runtime_api: Seq<char>,
    identifier: Seq<u8>,
)
    requires
        is_next_event_request(request, runtime_api, identifier),
    ensures
        request.method == ExtensionMethod::Get,
        request.uri@ == "http://"@ + runtime_api + "/2020-01-01/extension/event/next"@,
        request.header_name@ == "Lambda-Extension-Identifier"@,
        value_bytes(request.header_value) == identifier,
        request.body@.len() == 0,
{
}

/// The two requests go to URIs that hold the address in full between the same beginning and the
/// same ends, whatever the address is.
pub proof fn law_extension_uris_hold_the_address(left: Seq<char>, right: Seq<char>)
    ensures
        register_uri(left) == "http://"@ + left + "/2020-01-01/extension/register"@,
        next_event_uri(left) == "http://"@ + left + "/2020-01-01/extension/event/next"@,
        register_uri(left) == register_uri(right) <==> left == right,
        next_event_uri(left) == next_event_uri(right) <==> left == right,
        ACCEPTED_STATUS == 200,
{
    if register_uri(left) == register_uri(right) {
        lemma_middle_is_kept("http://"@, left, right, "/2020-01-01/extension/register"@);
    }
    if next_event_uri(left) == next_event_uri(right) {
        lemma_middle_is_kept("http://"@, left, right, "/2020-01-01/extension/event/next"@);
    }
}

proof fn lemma_middle_is_kept(
    front: Seq<char>,
    left: Seq<char>,
    right: Seq<char>,
    back: Seq<char>,
)
    requires
        front + left + back == front + right + back,
    ensures
        left == right,
{
    let whole = front + left + back;
    assert(whole.len() == (front + right + back).len());
    assert(left.len() == right.len());
    assert(left == whole.subrange(front.len() as int, (front.len() + left.len()) as int));
    assert(right == (front + right + back).subrange(
        front.len() as int,
        (front.len() + right.len()) as int,
    ));
}

} // verus!
