//! What request a Lambda event becomes.

use crate::adapter::{adapter_of, Adapter, AdapterView};
use crate::environment::{first_value, optional_text};
use crate::headers::{
    header_values, insert_header, is_header_name, is_header_value, is_value_char,
    law_header_values_by_character, NAMES_WITH_ROOM,
};
use crate::options::options_of;
use crate::server_url::{
    byte_length, check_uri, is_http_url, is_plain_path, is_plain_query, path_can_be_set,
    query_byte_length, query_can_be_set, query_text, rooted, uri_accepts, url_before_path,
    url_fragment, url_host, url_path, url_port, url_query, url_text, url_with_path, url_with_query,
    written_path, written_query,
};
use crate::text::{
    copies, law_one_more_base_path_changes_nothing, law_only_base_paths_are_removed, trim_base_path,
    without_prefixes,
};
use http::header::{HeaderMap, HeaderValue, InvalidHeaderValue, MaxSizeReached};
use http::uri::InvalidUri;
use http::Method;
use lambda_http::request::RequestContext;
use lambda_http::Context;
use url::Url;
use vstd::prelude::*;
use vstd::string::*;
use vstd::utf8::{char_u32_cast, encode_utf8};

verus! {

/// The method of an HTTP request.
#[verifier::external_type_specification]
#[verifier::external_body]
pub struct ExMethod(Method);

/// What the service that sent an event says of it.
#[verifier::external_type_specification]
#[verifier::external_body]
pub struct ExRequestContext(RequestContext);

/// What Lambda says of an invocation.
#[verifier::external_type_specification]
#[verifier::external_body]
pub struct ExContext(Context);

/// The error of writing a value as JSON.
#[verifier::external_type_specification]
#[verifier::external_body]
pub struct ExJsonError(serde_json::Error);

/// Whether a text holds no control character below the space.
pub open spec fn is_plain_text(text: Seq<char>) -> bool {
    forall|i: int| 0 <= i < text.len() ==> #[trigger] text[i] as u32 >= 32
}

/// Whether [`serde_json::to_string`] may write a request context as the given text. The context
/// holds hash maps, whose entries come in no fixed order, so there may be more than one such text.
pub uninterp spec fn request_context_writes_as(context: RequestContext, json: Seq<char>) -> bool;

/// Whether [`serde_json::to_string`] may write a Lambda context as the given text. The context
/// holds hash maps, whose entries come in no fixed order, so there may be more than one such text.
pub uninterp spec fn lambda_context_writes_as(context: Context, json: Seq<char>) -> bool;

/// [`serde_json::to_string`] of a request context: one of the texts that it may be written as. The
/// compact writer puts nothing between the tokens and escapes the control characters below the
/// space. Writing cannot fail: the context is made of texts, integers, JSON values and maps with
/// texts as keys, and holds no raw JSON. Which of the texts it is, is left open.
#[verifier::external_body]
fn request_context_json(context: &RequestContext) -> (json: Result<String, serde_json::Error>)
    ensures
        json is Ok,
        json matches Ok(json) ==> request_context_writes_as(*context, json@),
        json matches Ok(json) ==> is_plain_text(json@),
{
    serde_json::to_string(context)
}

/// [`serde_json::to_string`] of a Lambda context: one of the texts that it may be written as. The
/// compact writer puts nothing between the tokens and escapes the control characters below the
/// space. Writing cannot fail: the context is made of texts, integers, JSON values and maps with
/// texts as keys, and holds no raw JSON. Which of the texts it is, is left open.
#[verifier::external_body]
fn lambda_context_json(context: &Context) -> (json: Result<String, serde_json::Error>)
    ensures
        json is Ok,
        json matches Ok(json) ==> lambda_context_writes_as(*context, json@),
        json matches Ok(json) ==> is_plain_text(json@),
{
    serde_json::to_string(context)
}

/// A request as Lambda hands it over.
pub struct InboundRequest {
    pub method: Method,
    /// The path, without the stage of an API gateway.
    pub raw_path: String,
    pub query: Option<String>,
    pub headers: HeaderMap<HeaderValue>,
    pub body: Vec<u8>,
}

/// A request together with what is known of where it came from.
pub struct LambdaEvent {
    pub request: InboundRequest,
    pub request_context: RequestContext,
    pub lambda_context: Context,
}

/// A request to the web server.
pub struct AppRequest {
    pub method: Method,
    pub uri: String,
    pub headers: HeaderMap<HeaderValue>,
    pub body: Vec<u8>,
}

/// Why no request to the web server can be made of an event.
pub enum FetchError {
    /// A context cannot be written as JSON.
    Json(serde_json::Error),
    /// The JSON of a context cannot be the value of a header.
    InvalidHeader(InvalidHeaderValue),
    /// The headers have no room for a context.
    HeadersFull(MaxSizeReached),
    /// The URL of the request is not a URI.
    InvalidUrl(InvalidUri),
}

/// The path that the web server gets to see.
pub open spec fn app_path(adapter: AdapterView, raw_path: Seq<char>) -> Seq<char> {
    match adapter.base_path {
        Some(base_path) => without_prefixes(raw_path, base_path),
        None => raw_path,
    }
}

/// The URL of the request to the web server.
pub open spec fn app_url(
    adapter: AdapterView,
    raw_path: Seq<char>,
    query: Option<Seq<char>>,
) -> Seq<char> {
    url_with_query(url_with_path(adapter.domain, app_path(adapter, raw_path)), query)
}

/// Whether it can be told from the lengths alone that the URL of the request can be made: a byte of
/// the path, and of a query before a fragment, may become three.
pub open spec fn surely_fits(
    adapter: AdapterView,
    raw_path: Seq<char>,
    query: Option<Seq<char>>,
) -> bool {
    byte_length(adapter.domain) + 3 * byte_length(app_path(adapter, raw_path)) + (
    if adapter.domain.contains('#') {
        3 * query_byte_length(query) + 1
    } else {
        0
    }) < u32::MAX
}

/// Whether the URL of the request can be made: the places at which it keeps its parts have to fit 32
/// bits, once its path is set and once its query is.
pub open spec fn url_fits(
    adapter: AdapterView,
    raw_path: Seq<char>,
    query: Option<Seq<char>>,
) -> bool {
    ||| surely_fits(adapter, raw_path, query)
    ||| {
        &&& path_can_be_set(adapter.domain, app_path(adapter, raw_path))
        &&& query_can_be_set(
            url_with_path(adapter.domain, app_path(adapter, raw_path)),
            query,
        )
    }
}

/// Whether a context was written as JSON that can be the value of a header.
pub open spec fn can_be_sent(context: Result<String, serde_json::Error>) -> bool {
    context matches Ok(text) && is_header_value(encode_utf8(text@))
}

/// Whether both contexts of an event may be written as JSON that can be the value of a header.
pub open spec fn contexts_can_be_sent(event: LambdaEvent) -> bool {
    &&& exists|json: Seq<char>| #[trigger]
        request_context_writes_as(event.request_context, json) && is_header_value(encode_utf8(json))
    &&& exists|json: Seq<char>| #[trigger]
        lambda_context_writes_as(event.lambda_context, json) && is_header_value(encode_utf8(json))
}

/// Headers with the two contexts in place of whatever stood under their names.
pub open spec fn with_contexts(
    headers: Map<Seq<char>, Seq<Seq<u8>>>,
    request_context: Seq<u8>,
    lambda_context: Seq<u8>,
) -> Map<Seq<char>, Seq<Seq<u8>>> {
    headers.insert("x-amzn-request-context"@, seq![request_context]).insert(
        "x-amzn-lambda-context"@,
        seq![lambda_context],
    )
}

/// Whether `sent` is what becomes of `request` where the contexts were written as the given texts.
pub open spec fn is_forwarded(
    adapter: AdapterView,
    request: InboundRequest,
    request_context: Seq<char>,
    lambda_context: Seq<char>,
    sent: AppRequest,
) -> bool {
    &&& sent.method == request.method
    &&& sent.uri@ == app_url(adapter, request.raw_path@, optional_text(request.query))
    &&& header_values(sent.headers) == with_contexts(
        header_values(request.headers),
        encode_utf8(request_context),
        encode_utf8(lambda_context),
    )
    &&& sent.body@ == request.body@
}

/// Whether `outcome` is what comes of `request` where writing the contexts ended as given. The
/// first failure decides. Only where the headers hold very many names may they have no room.
pub open spec fn forward_outcome(
    adapter: AdapterView,
    request: InboundRequest,
    request_context: Result<String, serde_json::Error>,
    lambda_context: Result<String, serde_json::Error>,
    outcome: Result<AppRequest, FetchError>,
) -> bool {
    if outcome is Err && outcome->Err_0 is HeadersFull {
        &&& request_context matches Ok(text) && is_header_value(encode_utf8(text@))
        &&& header_values(request.headers).dom().finite()
        &&& header_values(request.headers).dom().len() >= NAMES_WITH_ROOM
    } else {
        match request_context {
            Err(error) => outcome == Err::<AppRequest, FetchError>(FetchError::Json(error)),
            Ok(request_text) => if !is_header_value(encode_utf8(request_text@)) {
                outcome matches Err(FetchError::InvalidHeader(_))
            } else {
                match lambda_context {
                    Err(error) => outcome == Err::<AppRequest, FetchError>(
                        FetchError::Json(error),
                    ),
                    Ok(lambda_text) => if !is_header_value(encode_utf8(lambda_text@)) {
                        outcome matches Err(FetchError::InvalidHeader(_))
                    } else if !uri_accepts(
                        app_url(adapter, request.raw_path@, optional_text(request.query)),
                    ) {
                        outcome matches Err(FetchError::InvalidUrl(_))
                    } else {
                        outcome matches Ok(sent) && is_forwarded(
                            adapter,
                            request,
                            request_text@,
                            lambda_text@,
                            sent,
                        )
                    },
                }
            },
        }
    }
}

/// Whether a request goes to the host and the port of the adapter's web server.
pub open spec fn goes_to_server(adapter: AdapterView, uri: Seq<char>) -> bool {
    &&& is_http_url(uri)
    &&& url_host(uri) == url_host(adapter.domain)
    &&& url_port(uri) == url_port(adapter.domain)
}

/// Whether a URI has the parts that a path and a query ask for: what stands before the path, and the
/// fragment, are those of the web server; the path is what is left of the given one, and the query
/// is the given one or none, each as it is written in a URL.
pub open spec fn has_parts_of(
    adapter: AdapterView,
    raw_path: Seq<char>,
    query: Option<Seq<char>>,
    uri: Seq<char>,
) -> bool {
    &&& url_before_path(uri) == url_before_path(adapter.domain)
    &&& url_path(uri) == written_path(app_path(adapter, raw_path))
    &&& is_plain_path(app_path(adapter, raw_path)) ==> url_path(uri) == rooted(
        app_path(adapter, raw_path),
    )
    &&& url_query(uri) == written_query(query)
    &&& url_query(uri) is Some <==> query is Some
    &&& query matches Some(query) ==> is_plain_query(query) ==> url_query(uri) == Some(query)
    &&& url_fragment(uri) == url_fragment(adapter.domain)
}

/// Whether `outcome` is what comes of `event` for some way of writing its contexts as JSON. A
/// request that comes of it goes to the adapter's web server.
pub open spec fn fetch_outcome(
    adapter: AdapterView,
    event: LambdaEvent,
    outcome: Result<AppRequest, FetchError>,
) -> bool {
    &&& exists|request_context: String, lambda_context: String|
        {
            &&& request_context_writes_as(event.request_context, request_context@)
            &&& is_plain_text(request_context@)
            &&& lambda_context_writes_as(event.lambda_context, lambda_context@)
            &&& is_plain_text(lambda_context@)
            &&& #[trigger] forward_outcome(
                adapter,
                event.request,
                Ok(request_context),
                Ok(lambda_context),
                outcome,
            )
        }
    &&& outcome matches Ok(sent) ==> goes_to_server(adapter, sent.uri@)
    &&& outcome matches Ok(sent) ==> has_parts_of(
        adapter,
        event.request.raw_path@,
        optional_text(event.request.query),
        sent.uri@,
    )
}

proof fn lemma_one_more_name(names: Set<Seq<char>>, name: Seq<char>)
    requires
        names.insert(name).finite(),
    ensures
        names.finite(),
        names.insert(name).len() <= names.len() + 1,
{
    if names.contains(name) {
        assert(names.insert(name) == names);
    } else {
        assert(names.insert(name).remove(name) == names);
    }
}

/// Puts a text in place of all values of a header.
fn set_context(
    headers: &mut HeaderMap<HeaderValue>,
    name: &'static str,
    text: &str,
) -> (set: Result<(), FetchError>)
    requires
        is_header_name(name@),
    ensures
        match set {
            Ok(_) => {
                &&& is_header_value(encode_utf8(text@))
                &&& header_values(*final(headers)) == header_values(*old(headers)).insert(
                    name@,
                    seq![encode_utf8(text@)],
                )
            },
            Err(FetchError::InvalidHeader(_)) => !is_header_value(encode_utf8(text@)),
            Err(FetchError::HeadersFull(_)) => {
                &&& is_header_value(encode_utf8(text@))
                &&& header_values(*old(headers)).dom().finite()
                &&& header_values(*old(headers)).dom().len() > NAMES_WITH_ROOM
            },
            Err(_) => false,
        },
{
    match HeaderValue::from_bytes(text.as_bytes()) {
        Ok(value) => match insert_header(headers, name, value) {
            Ok(_) => Ok(()),
            Err(error) => Err(FetchError::HeadersFull(error)),
        },
        Err(error) => Err(FetchError::InvalidHeader(error)),
    }
}

impl Adapter {
    /// Whether it can be told from the lengths alone that the URL of the request can be made.
    pub fn request_fits(&self, request: &InboundRequest) -> (fits: bool)
        ensures
            fits == surely_fits(self@, request.raw_path@, optional_text(request.query)),
    {
        let path: &str = self.app_path(request.raw_path.as_str());
        let domain: usize = self.domain().as_str().as_bytes().len();
        let path: usize = path.as_bytes().len();
        if domain as u128 >= u32::MAX as u128 {
            return false;
        }
        let query: u128 = match self.domain().fragment() {
            Some(_) => match &request.query {
                Some(query) => 3 * (query.as_str().as_bytes().len() as u128) + 1,
                None => 1,
            },
            None => 0,
        };
        (domain as u128) + 3 * (path as u128) + query < u32::MAX as u128
    }

    /// The path that the web server gets to see.
    pub fn app_path<'a>(&self, raw_path: &'a str) -> (path: &'a str)
        ensures
            path@ == app_path(self@, raw_path@),
            self@.base_path is None ==> path@ == raw_path@,
            self@.base_path matches Some(base_path) ==> path@ == without_prefixes(
                raw_path@,
                base_path,
            ),
    {
        match self.base_path() {
            Some(base_path) => trim_base_path(raw_path, base_path),
            None => raw_path,
        }
    }

    /// The URL of the request to the web server.
    pub fn app_url(&self, raw_path: &str, query: Option<&str>) -> (url: String)
        requires
            url_fits(self@, raw_path@, query_text(query)),
        ensures
            url@ == app_url(self@, raw_path@, query_text(query)),
            goes_to_server(self@, url@),
            has_parts_of(self@, raw_path@, query_text(query), url@),
            url_before_path(url@) == url_before_path(self@.domain),
            self@.base_path is None ==> url_path(url@) == written_path(raw_path@),
            self@.base_path matches Some(base_path) ==> url_path(url@) == written_path(
                without_prefixes(raw_path@, base_path),
            ),
            query is None ==> url_query(url@) is None,
            query matches Some(query) ==> url_query(url@) is Some,
            query matches Some(query) ==> url_query(url@) == written_query(Some(query@)),
            query matches Some(query) ==> is_plain_query(query@) ==> url_query(url@) == Some(
                query@,
            ),
            url_fragment(url@) == url_fragment(self@.domain),
    {
        let mut url: Url = self.domain().clone();
        url.set_path(self.app_path(raw_path));
        url.set_query(query);
        url.as_str().to_string()
    }

    /// Makes a request to the web server of a request and its contexts, each written as JSON or
    /// failed to be.
    pub fn forward(
        &self,
        request: InboundRequest,
        request_context: Result<String, serde_json::Error>,
        lambda_context: Result<String, serde_json::Error>,
    ) -> (outcome: Result<AppRequest, FetchError>)
        requires
            can_be_sent(request_context) && can_be_sent(lambda_context) ==> url_fits(
                self@,
                request.raw_path@,
                optional_text(request.query),
            ),
        ensures
            forward_outcome(self@, request, request_context, lambda_context, outcome),
            outcome matches Ok(sent) ==> goes_to_server(self@, sent.uri@),
            outcome matches Ok(sent) ==> has_parts_of(
                self@,
                request.raw_path@,
                optional_text(request.query),
                sent.uri@,
            ),
            outcome matches Ok(sent) ==> sent.method == request.method,
            outcome matches Ok(sent) ==> sent.body@ == request.body@,
            outcome matches Ok(sent) ==> url_query(sent.uri@) == written_query(
                optional_text(request.query),
            ),
    {
        proof {
            reveal_strlit("x-amzn-request-context");
            reveal_strlit("x-amzn-lambda-context");
        }
        let InboundRequest { method, raw_path, query, headers, body } = request;
        let mut headers: HeaderMap<HeaderValue> = headers;
        let request_text: String = match request_context {
            Ok(text) => text,
            Err(error) => {
                return Err(FetchError::Json(error));
            },
        };
        match set_context(&mut headers, "x-amzn-request-context", request_text.as_str()) {
            Ok(_) => {},
            Err(error) => {
                return Err(error);
            },
        }
        let lambda_text: String = match lambda_context {
            Ok(text) => text,
            Err(error) => {
                return Err(FetchError::Json(error));
            },
        };
        match set_context(&mut headers, "x-amzn-lambda-context", lambda_text.as_str()) {
            Ok(_) => {},
            Err(error) => {
                proof {
                    if error is HeadersFull {
                        lemma_one_more_name(
                            header_values(request.headers).dom(),
                            "x-amzn-request-context"@,
                        );
                    }
                }
                return Err(error);
            },
        }
        let query: Option<&str> = match &query {
            Some(query) => Some(query.as_str()),
            None => None,
        };
        let uri: String = self.app_url(raw_path.as_str(), query);
        match check_uri(uri.as_str()) {
            Ok(_) => Ok(AppRequest { method, uri, headers, body }),
            Err(error) => Err(FetchError::InvalidUrl(error)),
        }
    }

    /// Makes a request to the web server of an event.
    pub fn fetch_request(&self, event: LambdaEvent) -> (outcome: Result<AppRequest, FetchError>)
        requires
            contexts_can_be_sent(event) ==> url_fits(
                self@,
                event.request.raw_path@,
                optional_text(event.request.query),
            ),
        ensures
            fetch_outcome(self@, event, outcome),
            outcome matches Ok(sent) ==> sent.method == event.request.method,
            outcome matches Ok(sent) ==> sent.body@ == event.request.body@,
            outcome matches Ok(sent) ==> url_query(sent.uri@) == written_query(
                optional_text(event.request.query),
            ),
    {
        let request_context: Result<String, serde_json::Error> = request_context_json(
            &event.request_context,
        );
        let lambda_context: Result<String, serde_json::Error> = lambda_context_json(
            &event.lambda_context,
        );
        self.forward(event.request, request_context, lambda_context)
    }

    /// Makes a request to the web server of an event, unless the lengths alone leave open whether
    /// its URL can be made. [`Adapter::fetch_request`] takes every event whose URL can be made.
    pub fn try_fetch_request(&self, event: LambdaEvent) -> (outcome: Option<
        Result<AppRequest, FetchError>,
    >)
        ensures
            outcome is Some <==> surely_fits(
                self@,
                event.request.raw_path@,
                optional_text(event.request.query),
            ),
            outcome matches Some(outcome) ==> fetch_outcome(self@, event, outcome),
    {
        if self.request_fits(&event.request) {
            Some(self.fetch_request(event))
        } else {
            None
        }
    }
}

/// A request that came of an event has the event's method and body, its path without the base path
/// and its query on the web server's own host and port, and its headers with the event's two
/// contexts written as JSON among them.
pub proof fn law_what_the_web_server_gets(
    adapter: AdapterView,
    event: LambdaEvent,
    sent: AppRequest,
)
    requires
        fetch_outcome(adapter, event, Ok(sent)),
    ensures
        goes_to_server(adapter, sent.uri@),
        exists|request_context: Seq<char>, lambda_context: Seq<char>|
            {
                &&& request_context_writes_as(event.request_context, request_context)
                &&& lambda_context_writes_as(event.lambda_context, lambda_context)
                &&& #[trigger] is_forwarded(
                    adapter,
                    event.request,
                    request_context,
                    lambda_context,
                    sent,
                )
            },
{
}

/// The base path once more in front of a path changes neither the URL of the request nor whether
/// that can be made.
pub proof fn law_one_more_base_path_is_the_same_url(
    adapter: AdapterView,
    base_path: Seq<char>,
    raw_path: Seq<char>,
    query: Option<Seq<char>>,
)
    requires
        adapter.base_path == Some(base_path),
    ensures
        app_url(adapter, base_path + raw_path, query) == app_url(adapter, raw_path, query),
        url_fits(adapter, base_path + raw_path, query) == url_fits(adapter, raw_path, query),
        surely_fits(adapter, base_path + raw_path, query) == surely_fits(adapter, raw_path, query),
{
    law_one_more_base_path_changes_nothing(raw_path, base_path);
}

/// An event whose path has the base path once more in front becomes a request with the same method,
/// URI and body.
pub proof fn law_one_more_base_path_sends_the_same(
    adapter: AdapterView,
    left: LambdaEvent,
    right: LambdaEvent,
    left_sent: AppRequest,
    right_sent: AppRequest,
)
    requires
        adapter.base_path matches Some(base_path) && right.request.raw_path@ == base_path
            + left.request.raw_path@,
        right.request.method == left.request.method,
        optional_text(right.request.query) == optional_text(left.request.query),
        right.request.body@ == left.request.body@,
        fetch_outcome(adapter, left, Ok(left_sent)),
        fetch_outcome(adapter, right, Ok(right_sent)),
    ensures
        right_sent.method == left_sent.method,
        right_sent.uri@ == left_sent.uri@,
        right_sent.body@ == left_sent.body@,
{
    law_one_more_base_path_is_the_same_url(
        adapter,
        adapter.base_path->0,
        left.request.raw_path@,
        optional_text(left.request.query),
    );
}

/// An event fails to become a request only where a context may be written with the DEL character in
/// it, where the URL is not a URI, or where the headers hold very many names already. Writing the
/// contexts never fails.
pub proof fn law_when_an_event_becomes_a_request(
    adapter: AdapterView,
    event: LambdaEvent,
    outcome: Result<AppRequest, FetchError>,
)
    requires
        fetch_outcome(adapter, event, outcome),
    ensures
        match outcome {
            Ok(_) => true,
            Err(FetchError::Json(_)) => false,
            Err(FetchError::InvalidHeader(_)) => exists|text: Seq<char>|
                {
                    &&& request_context_writes_as(event.request_context, text)
                        || lambda_context_writes_as(event.lambda_context, text)
                    &&& #[trigger] text.contains('\u{7f}')
                },
            Err(FetchError::HeadersFull(_)) => header_values(event.request.headers).dom().len()
                >= NAMES_WITH_ROOM,
            Err(FetchError::InvalidUrl(_)) => !uri_accepts(
                app_url(adapter, event.request.raw_path@, optional_text(event.request.query)),
            ),
        },
{
    let (request_context, lambda_context) = choose|request_context: String, lambda_context: String|
        {
            &&& request_context_writes_as(event.request_context, request_context@)
            &&& is_plain_text(request_context@)
            &&& lambda_context_writes_as(event.lambda_context, lambda_context@)
            &&& is_plain_text(lambda_context@)
            &&& #[trigger] forward_outcome(
                adapter,
                event.request,
                Ok(request_context),
                Ok(lambda_context),
                outcome,
            )
        };
    law_contexts_without_del_are_sent(request_context@);
    law_contexts_without_del_are_sent(lambda_context@);
}

/// The base path that the environment names is what paths are trimmed by, the prefixed variable
/// coming first; an environment that names none leaves every path as it is.
pub proof fn law_base_path_variables_decide_the_path(
    environment: Map<Seq<char>, Seq<char>>,
    raw_path: Seq<char>,
)
    ensures
        app_path(adapter_of(options_of(environment)), raw_path) == (match first_value(
            environment,
            "AWS_LWA_REMOVE_BASE_PATH"@,
            "REMOVE_BASE_PATH"@,
        ) {
            Some(base_path) => without_prefixes(raw_path, base_path),
            None => raw_path,
        }),
{
}

/// Whatever headers come with an event, the web server gets exactly one value under each context
/// name, the adapter's own, and every other header as it came.
pub proof fn law_contexts_replace_and_the_rest_stays(
    headers: Map<Seq<char>, Seq<Seq<u8>>>,
    request_context: Seq<u8>,
    lambda_context: Seq<u8>,
)
    ensures
        ({
            let sent = with_contexts(headers, request_context, lambda_context);
            &&& sent.contains_key("x-amzn-request-context"@)
            &&& sent["x-amzn-request-context"@] == seq![request_context]
            &&& sent.contains_key("x-amzn-lambda-context"@)
            &&& sent["x-amzn-lambda-context"@] == seq![lambda_context]
            &&& forall|name: Seq<char>|
                name != "x-amzn-request-context"@ && name != "x-amzn-lambda-context"@ ==> {
                    &&& #[trigger] sent.contains_key(name) == headers.contains_key(name)
                    &&& sent.contains_key(name) ==> sent[name] == headers[name]
                }
        }),
{
    reveal_strlit("x-amzn-request-context");
    reveal_strlit("x-amzn-lambda-context");
    assert("x-amzn-request-context"@.len() != "x-amzn-lambda-context"@.len());
}

/// The JSON of a context can be sent as a header unless it holds the DEL character.
pub proof fn law_contexts_without_del_are_sent(text: Seq<char>)
    requires
        is_plain_text(text),
    ensures
        is_header_value(encode_utf8(text)) <==> !text.contains('\u{7f}'),
{
    law_header_values_by_character(text);
    if text.contains('\u{7f}') {
        let i = choose|i: int| 0 <= i < text.len() && text[i] == '\u{7f}';
        assert(!is_value_char(text[i]));
    }
    assert forall|i: int| 0 <= i < text.len() && !text.contains('\u{7f}') implies is_value_char(
        #[trigger] text[i],
    ) by {
        assert(text.contains(text[i]));
        char_u32_cast(text[i], text[i] as u32);
    }
}

/// The URI of a request that came of an event carries the query of the event, as every URL would
/// write it, whatever the path: it has a query if and only if the event has one, and one that needs
/// no encoding is there letter for letter.
pub proof fn law_queries_reach_the_web_server(
    adapter: AdapterView,
    event: LambdaEvent,
    sent: AppRequest,
)
    requires
        fetch_outcome(adapter, event, Ok(sent)),
    ensures
        event.request.query is None ==> url_query(sent.uri@) is None,
        event.request.query matches Some(query) ==> {
            &&& url_query(sent.uri@) is Some
            &&& url_query(sent.uri@) == written_query(Some(query@))
            &&& is_plain_query(query@) ==> url_query(sent.uri@) == Some(query@)
        },
{
}

/// Events with the same query become requests with the same query, however much they and their
/// adapters differ otherwise.
pub proof fn law_queries_depend_on_the_query_alone(
    adapter: AdapterView,
    other: AdapterView,
    left: LambdaEvent,
    right: LambdaEvent,
    left_sent: AppRequest,
    right_sent: AppRequest,
)
    requires
        optional_text(left.request.query) == optional_text(right.request.query),
        fetch_outcome(adapter, left, Ok(left_sent)),
        fetch_outcome(other, right, Ok(right_sent)),
    ensures
        url_query(left_sent.uri@) == url_query(right_sent.uri@),
{
}

/// The path of a request that came of an event is what is left of the event's path once the base path
/// is gone from its front, however often it stood there, as every URL would write it. Where nothing
/// has to be encoded it is there letter for letter.
pub proof fn law_paths_reach_the_web_server(
    adapter: AdapterView,
    event: LambdaEvent,
    sent: AppRequest,
    count: nat,
    rest: Seq<char>,
)
    requires
        fetch_outcome(adapter, event, Ok(sent)),
        match adapter.base_path {
            Some(base_path) => {
                &&& event.request.raw_path@ == copies(base_path, count) + rest
                &&& base_path.len() > 0
                &&& !base_path.is_prefix_of(rest)
            },
            None => event.request.raw_path@ == rest,
        },
    ensures
        url_path(sent.uri@) == written_path(rest),
        is_plain_path(rest) ==> url_path(sent.uri@) == (if rest.len() > 0 && rest[0] == '/' {
            rest
        } else {
            seq!['/'] + rest
        }),
{
    if let Some(base_path) = adapter.base_path {
        law_only_base_paths_are_removed(base_path, count, rest);
    }
}

/// Every request goes to the scheme, the host and the port of the web server, and carries no other
/// fragment than the web server's URL has, whatever the event.
pub proof fn law_requests_stay_at_the_web_server(
    adapter: AdapterView,
    event: LambdaEvent,
    sent: AppRequest,
)
    requires
        fetch_outcome(adapter, event, Ok(sent)),
    ensures
        "http://"@.is_prefix_of(sent.uri@),
        url_host(sent.uri@) == url_host(adapter.domain),
        url_port(sent.uri@) == url_port(adapter.domain),
        url_before_path(sent.uri@) == url_before_path(adapter.domain),
        url_fragment(sent.uri@) == url_fragment(adapter.domain),
{
}

/// A request that came of an event has the event's method and body. Under each context name stands
/// one value, the JSON of that context of the event byte for byte, and under every other name what
/// stood there. It is a request that can be sent: its URI is one.
pub proof fn law_events_reach_the_web_server_whole(
    adapter: AdapterView,
    event: LambdaEvent,
    sent: AppRequest,
)
    requires
        fetch_outcome(adapter, event, Ok(sent)),
    ensures
        sent.method == event.request.method,
        sent.body@ == event.request.body@,
        uri_accepts(sent.uri@),
        header_values(sent.headers).contains_key("x-amzn-request-context"@),
        header_values(sent.headers).contains_key("x-amzn-lambda-context"@),
        exists|json: Seq<char>| #[trigger]
            request_context_writes_as(event.request_context, json) && header_values(
                sent.headers,
            )["x-amzn-request-context"@] == seq![encode_utf8(json)],
        exists|json: Seq<char>| #[trigger]
            lambda_context_writes_as(event.lambda_context, json) && header_values(
                sent.headers,
            )["x-amzn-lambda-context"@] == seq![encode_utf8(json)],
        forall|name: Seq<char>|
            name != "x-amzn-request-context"@ && name != "x-amzn-lambda-context"@ ==> {
                &&& #[trigger] header_values(sent.headers).contains_key(name) == header_values(
                    event.request.headers,
                ).contains_key(name)
                &&& header_values(sent.headers).contains_key(name) ==> header_values(
                    sent.headers,
                )[name] == header_values(event.request.headers)[name]
            },
{
    let (request_context, lambda_context) = choose|request_context: String, lambda_context: String|
        {
            &&& request_context_writes_as(event.request_context, request_context@)
            &&& is_plain_text(request_context@)
            &&& lambda_context_writes_as(event.lambda_context, lambda_context@)
            &&& is_plain_text(lambda_context@)
            &&& #[trigger] forward_outcome(
                adapter,
                event.request,
                Ok(request_context),
                Ok(lambda_context),
                Ok(sent),
            )
        };
    law_contexts_replace_and_the_rest_stays(
        header_values(event.request.headers),
        encode_utf8(request_context@),
        encode_utf8(lambda_context@),
    );
}

/// A request that is forwarded with two given contexts keeps its method, its body and its headers,
/// but for one value under each context name: that context byte for byte.
pub proof fn law_requests_reach_the_web_server_whole(
    adapter: AdapterView,
    request: InboundRequest,
    request_context: String,
    lambda_context: String,
    sent: AppRequest,
)
    requires
        forward_outcome(adapter, request, Ok(request_context), Ok(lambda_context), Ok(sent)),
    ensures
        sent.method == request.method,
        sent.body@ == request.body@,
        header_values(sent.headers)["x-amzn-request-context"@] == seq![
            encode_utf8(request_context@),
        ],
        header_values(sent.headers)["x-amzn-lambda-context"@] == seq![encode_utf8(lambda_context@)],
        forall|name: Seq<char>|
            name != "x-amzn-request-context"@ && name != "x-amzn-lambda-context"@ ==> {
                &&& #[trigger] header_values(sent.headers).contains_key(name) == header_values(
                    request.headers,
                ).contains_key(name)
                &&& header_values(sent.headers).contains_key(name) ==> header_values(
                    sent.headers,
                )[name] == header_values(request.headers)[name]
            },
{
    law_contexts_replace_and_the_rest_stays(
        header_values(request.headers),
        encode_utf8(request_context@),
        encode_utf8(lambda_context@),
    );
}

/// A request is refused for its first failing and for nothing else: a context that was not written,
/// a context that no header can hold, and last a URL that is no URI. Headers of fewer than 6553
/// names always have room.
pub proof fn law_first_failing_decides(
    adapter: AdapterView,
    request: InboundRequest,
    request_context: Result<String, serde_json::Error>,
    lambda_context: Result<String, serde_json::Error>,
    outcome: Result<AppRequest, FetchError>,
)
    requires
        forward_outcome(adapter, request, request_context, lambda_context, outcome),
    ensures
        request_context matches Err(error) ==> outcome == Err::<AppRequest, FetchError>(
            FetchError::Json(error),
        ),
        request_context matches Ok(text) ==> !is_header_value(encode_utf8(text@)) ==> (
        outcome matches Err(FetchError::InvalidHeader(_))),
        outcome matches Err(FetchError::HeadersFull(_)) ==> header_values(
            request.headers,
        ).dom().len() >= 6553,
        !(outcome matches Err(FetchError::HeadersFull(_))) ==> (
        request_context matches Ok(request_text) ==> is_header_value(encode_utf8(request_text@))
            ==> {
            &&& lambda_context matches Err(error) ==> outcome == Err::<AppRequest, FetchError>(
                FetchError::Json(error),
            )
            &&& lambda_context matches Ok(text) ==> !is_header_value(encode_utf8(text@)) ==> (
            outcome matches Err(FetchError::InvalidHeader(_)))
            &&& lambda_context matches Ok(text) ==> is_header_value(encode_utf8(text@)) ==> {
                &&& outcome is Ok <==> uri_accepts(
                    app_url(adapter, request.raw_path@, optional_text(request.query)),
                )
                &&& outcome is Err ==> (outcome matches Err(FetchError::InvalidUrl(_)))
            }
        }),
{
}

/// An event becomes a request where both contexts can only be written without the DEL character, the
/// headers hold fewer than 6553 names and the URL is a URI.
pub proof fn law_events_that_can_be_sent_are_sent(
    adapter: AdapterView,
    event: LambdaEvent,
    outcome: Result<AppRequest, FetchError>,
)
    requires
        fetch_outcome(adapter, event, outcome),
        forall|json: Seq<char>| #[trigger]
            request_context_writes_as(event.request_context, json) ==> !json.contains('\u{7f}'),
        forall|json: Seq<char>| #[trigger]
            lambda_context_writes_as(event.lambda_context, json) ==> !json.contains('\u{7f}'),
        header_values(event.request.headers).dom().len() < 6553,
        uri_accepts(
            app_url(adapter, event.request.raw_path@, optional_text(event.request.query)),
        ),
    ensures
        outcome is Ok,
{
    law_when_an_event_becomes_a_request(adapter, event, outcome);
}

/// Without a base path the web server gets to see the path as it came; with one, what stands behind
/// the copies of it in front; with an empty one, all of it.
pub proof fn law_only_the_base_path_is_taken_from_a_path(
    adapter: AdapterView,
    count: nat,
    rest: Seq<char>,
)
    ensures
        adapter.base_path is None ==> app_path(adapter, rest) == rest,
        adapter.base_path matches Some(base_path) ==> {
            &&& base_path.len() == 0 ==> app_path(adapter, rest) == rest
            &&& !base_path.is_prefix_of(rest) ==> app_path(
                adapter,
                copies(base_path, count) + rest,
            ) == rest
        },
{
    if let Some(base_path) = adapter.base_path {
        if !base_path.is_prefix_of(rest) {
            law_only_base_paths_are_removed(base_path, count, rest);
        }
    }
}

/// A URL can be made, and is known beforehand to, wherever the web server's URL, three times what is
/// left of the path and three times the query stay below 32 bits together.
pub proof fn law_urls_below_the_limit_can_be_made(
    adapter: AdapterView,
    raw_path: Seq<char>,
    query: Option<Seq<char>>,
)
    requires
        byte_length(adapter.domain) + 3 * byte_length(app_path(adapter, raw_path)) + 3
            * query_byte_length(query) + 1 < 0xffff_ffff,
    ensures
        surely_fits(adapter, raw_path, query),
        url_fits(adapter, raw_path, query),
{
}

} // verus!
