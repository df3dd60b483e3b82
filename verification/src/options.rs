//! The options of the adapter, read from the environment.

use crate::environment::{
    first_value, optional_text, text_or, unwrap_text, value_of, Environment,
};
use crate::extension::runtime_api_of;
use crate::text::{ascii_lowercase, lowercase, parse_bool, parse_u16, parsed_bool, parsed_u16};
use vstd::prelude::*;
use vstd::string::*;
use vstd::utf8::{char_u32_cast, is_ascii_chars};

verus! {

/// How the web server is asked whether it is ready.
#[derive(Clone, Copy, Debug, Eq, PartialEq, Structural)]
pub enum Protocol {
    Http,
    Tcp,
}

impl Default for Protocol {
    fn default() -> (protocol: Self)
        ensures
            protocol == Protocol::Http,
    {
        Protocol::Http
    }
}

/// The protocol that a lower-case name stands for; a name that is not known stands for HTTP.
pub open spec fn protocol_named(name: Seq<char>) -> Protocol {
    if name == "tcp"@ {
        Protocol::Tcp
    } else {
        Protocol::Http
    }
}

impl From<&str> for Protocol {
    /// Reads the name of a protocol, in capital or small letters.
    fn from(value: &str) -> (protocol: Self)
        ensures
            is_ascii_chars(value@) ==> protocol == protocol_named(ascii_lowercase(value@)),
    {
        proof {
            reveal_strlit("http");
            reveal_strlit("tcp");
            assert("http"@.len() != "tcp"@.len());
        }
        let name: String = value.to_lowercase();
        if name == "http".to_string() {
            Protocol::Http
        } else if name == "tcp".to_string() {
            Protocol::Tcp
        } else {
            Protocol::Http
        }
    }
}

impl vstd::std_specs::convert::FromSpecImpl<&str> for Protocol {
    open spec fn obeys_from_spec() -> bool {
        true
    }

    open spec fn from_spec(value: &str) -> Self {
        protocol_named(lowercase(value@))
    }
}

/// Whether a response is handed to Lambda whole or as a stream.
#[derive(Clone, Copy, Debug, Eq, PartialEq, Structural)]
pub enum LambdaInvokeMode {
    Buffered,
    ResponseStream,
}

impl Default for LambdaInvokeMode {
    fn default() -> (mode: Self)
        ensures
            mode == LambdaInvokeMode::Buffered,
    {
        LambdaInvokeMode::Buffered
    }
}

/// The invoke mode that a lower-case name stands for; a name that is not known stands for
/// buffering.
pub open spec fn invoke_mode_named(name: Seq<char>) -> LambdaInvokeMode {
    if name == "response_stream"@ {
        LambdaInvokeMode::ResponseStream
    } else {
        LambdaInvokeMode::Buffered
    }
}

impl From<&str> for LambdaInvokeMode {
    /// Reads the name of an invoke mode, in capital or small letters.
    fn from(value: &str) -> (mode: Self)
        ensures
            is_ascii_chars(value@) ==> mode == invoke_mode_named(ascii_lowercase(value@)),
    {
        proof {
            reveal_strlit("buffered");
            reveal_strlit("response_stream");
            assert("buffered"@.len() != "response_stream"@.len());
        }
        let name: String = value.to_lowercase();
        if name == "buffered".to_string() {
            LambdaInvokeMode::Buffered
        } else if name == "response_stream".to_string() {
            LambdaInvokeMode::ResponseStream
        } else {
            LambdaInvokeMode::Buffered
        }
    }
}

impl vstd::std_specs::convert::FromSpecImpl<&str> for LambdaInvokeMode {
    open spec fn obeys_from_spec() -> bool {
        true
    }

    open spec fn from_spec(value: &str) -> Self {
        invoke_mode_named(lowercase(value@))
    }
}

/// What the adapter can be told about the web server and how to serve it.
pub struct AdapterOptions {
    pub host: String,
    pub port: String,
    pub readiness_check_port: String,
    pub readiness_check_path: String,
    pub readiness_check_protocol: Protocol,
    pub readiness_check_min_unhealthy_status: u16,
    pub base_path: Option<String>,
    pub async_init: bool,
    pub compression: bool,
    pub invoke_mode: LambdaInvokeMode,
}

/// The value of [`AdapterOptions`], with its texts as sequences of characters.
pub struct OptionsView {
    pub host: Seq<char>,
    pub port: Seq<char>,
    pub readiness_check_port: Seq<char>,
    pub readiness_check_path: Seq<char>,
    pub readiness_check_protocol: Protocol,
    pub readiness_check_min_unhealthy_status: u16,
    pub base_path: Option<Seq<char>>,
    pub async_init: bool,
    pub compression: bool,
    pub invoke_mode: LambdaInvokeMode,
}

impl View for AdapterOptions {
    type V = OptionsView;

    open spec fn view(&self) -> OptionsView {
        OptionsView {
            host: self.host@,
            port: self.port@,
            readiness_check_port: self.readiness_check_port@,
            readiness_check_path: self.readiness_check_path@,
            readiness_check_protocol: self.readiness_check_protocol,
            readiness_check_min_unhealthy_status: self.readiness_check_min_unhealthy_status,
            base_path: optional_text(self.base_path),
            async_init: self.async_init,
            compression: self.compression,
            invoke_mode: self.invoke_mode,
        }
    }
}

/// The lowest status that counts as unhealthy unless the environment says otherwise.
pub const DEFAULT_MIN_UNHEALTHY_STATUS: u16 = 500;

/// The port on which the web server listens.
pub open spec fn port_of(environment: Map<Seq<char>, Seq<char>>) -> Seq<char> {
    text_or(first_value(environment, "AWS_LWA_PORT"@, "PORT"@), "8080"@)
}

/// The name of the readiness protocol that an environment holds, if it holds one.
pub open spec fn protocol_name(environment: Map<Seq<char>, Seq<char>>) -> Option<Seq<char>> {
    first_value(environment, "AWS_LWA_READINESS_CHECK_PROTOCOL"@, "READINESS_CHECK_PROTOCOL"@)
}

/// The name of the invoke mode that an environment holds, if it holds one.
pub open spec fn invoke_mode_name(environment: Map<Seq<char>, Seq<char>>) -> Option<Seq<char>> {
    value_of(environment, "AWS_LWA_INVOKE_MODE"@)
}

/// Whether a switch is on: only where its text is `true`.
pub open spec fn switched_on(text: Option<Seq<char>>) -> bool {
    match text {
        Some(text) => parsed_bool(text) == Some(true),
        None => false,
    }
}

/// The options that an environment stands for. A variable whose name begins with `AWS_LWA_` comes
/// before the one of the same name without it.
pub open spec fn options_of(environment: Map<Seq<char>, Seq<char>>) -> OptionsView {
    OptionsView {
        host: text_or(first_value(environment, "AWS_LWA_HOST"@, "HOST"@), "127.0.0.1"@),
        port: port_of(environment),
        readiness_check_port: text_or(
            first_value(environment, "AWS_LWA_READINESS_CHECK_PORT"@, "READINESS_CHECK_PORT"@),
            port_of(environment),
        ),
        readiness_check_path: text_or(
            first_value(environment, "AWS_LWA_READINESS_CHECK_PATH"@, "READINESS_CHECK_PATH"@),
            "/"@,
        ),
        readiness_check_protocol: match protocol_name(environment) {
            Some(name) => protocol_named(lowercase(name)),
            None => Protocol::Http,
        },
        readiness_check_min_unhealthy_status: match value_of(
            environment,
            "AWS_LWA_READINESS_CHECK_MIN_UNHEALTHY_STATUS"@,
        ) {
            Some(text) => match parsed_u16(text) {
                Some(status) => status,
                None => DEFAULT_MIN_UNHEALTHY_STATUS,
            },
            None => DEFAULT_MIN_UNHEALTHY_STATUS,
        },
        base_path: first_value(environment, "AWS_LWA_REMOVE_BASE_PATH"@, "REMOVE_BASE_PATH"@),
        async_init: switched_on(first_value(environment, "AWS_LWA_ASYNC_INIT"@, "ASYNC_INIT"@)),
        compression: switched_on(value_of(environment, "AWS_LWA_ENABLE_COMPRESSION"@)),
        invoke_mode: match invoke_mode_name(environment) {
            Some(name) => invoke_mode_named(lowercase(name)),
            None => LambdaInvokeMode::Buffered,
        },
    }
}

fn is_switched_on(text: Option<String>) -> (on: bool)
    ensures
        on == switched_on(optional_text(text)),
{
    match text {
        Some(text) => match parse_bool(text.as_str()) {
            Some(on) => on,
            None => false,
        },
        None => false,
    }
}

impl AdapterOptions {
    /// The options that an environment stands for.
    pub fn from_environment(environment: &Environment) -> (options: AdapterOptions)
        ensures
            options@ == options_of(environment@),
            protocol_name(environment@) matches Some(name) ==> is_ascii_chars(name)
                ==> options.readiness_check_protocol == protocol_named(ascii_lowercase(name)),
            invoke_mode_name(environment@) matches Some(name) ==> is_ascii_chars(name)
                ==> options.invoke_mode == invoke_mode_named(ascii_lowercase(name)),
    {
        proof {
            reveal_strlit("HTTP");
            reveal_strlit("buffered");
            reveal_strlit("tcp");
            reveal_strlit("response_stream");
            assert(ascii_lowercase("HTTP"@).len() != "tcp"@.len());
            assert(ascii_lowercase("buffered"@).len() != "response_stream"@.len());
        }
        let port: String = unwrap_text(environment.first("AWS_LWA_PORT", "PORT"), "8080");
        let protocol: String = unwrap_text(
            environment.first("AWS_LWA_READINESS_CHECK_PROTOCOL", "READINESS_CHECK_PROTOCOL"),
            "HTTP",
        );
        let invoke_mode: String = unwrap_text(environment.get("AWS_LWA_INVOKE_MODE"), "buffered");
        AdapterOptions {
            host: unwrap_text(environment.first("AWS_LWA_HOST", "HOST"), "127.0.0.1"),
            readiness_check_port: unwrap_text(
                environment.first("AWS_LWA_READINESS_CHECK_PORT", "READINESS_CHECK_PORT"),
                port.as_str(),
            ),
            port,
            readiness_check_min_unhealthy_status: match environment.get(
                "AWS_LWA_READINESS_CHECK_MIN_UNHEALTHY_STATUS",
            ) {
                Some(text) => match parse_u16(text.as_str()) {
                    Some(status) => status,
                    None => DEFAULT_MIN_UNHEALTHY_STATUS,
                },
                None => DEFAULT_MIN_UNHEALTHY_STATUS,
            },
            readiness_check_path: unwrap_text(
                environment.first("AWS_LWA_READINESS_CHECK_PATH", "READINESS_CHECK_PATH"),
                "/",
            ),
            readiness_check_protocol: Protocol::from(protocol.as_str()),
            base_path: environment.first("AWS_LWA_REMOVE_BASE_PATH", "REMOVE_BASE_PATH"),
            async_init: is_switched_on(environment.first("AWS_LWA_ASYNC_INIT", "ASYNC_INIT")),
            compression: is_switched_on(environment.get("AWS_LWA_ENABLE_COMPRESSION")),
            invoke_mode: LambdaInvokeMode::from(invoke_mode.as_str()),
        }
    }
}

/// The names of the environment variables that the adapter looks at.
pub open spec fn adapter_variables() -> Seq<Seq<char>> {
    seq![
        "AWS_LWA_HOST"@,
        "HOST"@,
        "AWS_LWA_PORT"@,
        "PORT"@,
        "AWS_LWA_READINESS_CHECK_PORT"@,
        "READINESS_CHECK_PORT"@,
        "AWS_LWA_READINESS_CHECK_MIN_UNHEALTHY_STATUS"@,
        "AWS_LWA_READINESS_CHECK_PATH"@,
        "READINESS_CHECK_PATH"@,
        "AWS_LWA_READINESS_CHECK_PROTOCOL"@,
        "READINESS_CHECK_PROTOCOL"@,
        "AWS_LWA_REMOVE_BASE_PATH"@,
        "REMOVE_BASE_PATH"@,
        "AWS_LWA_ASYNC_INIT"@,
        "ASYNC_INIT"@,
        "AWS_LWA_ENABLE_COMPRESSION"@,
        "AWS_LWA_INVOKE_MODE"@,
        "AWS_LAMBDA_RUNTIME_API"@,
    ]
}

/// Lists the environment variables that the adapter looks at.
pub fn variable_names() -> (names: Vec<&'static str>)
    ensures
        names@.len() == adapter_variables().len(),
        forall|i: int| 0 <= i < names@.len() ==> (#[trigger] names@[i])@ == adapter_variables()[i],
{
    vec![
        "AWS_LWA_HOST",
        "HOST",
        "AWS_LWA_PORT",
        "PORT",
        "AWS_LWA_READINESS_CHECK_PORT",
        "READINESS_CHECK_PORT",
        "AWS_LWA_READINESS_CHECK_MIN_UNHEALTHY_STATUS",
        "AWS_LWA_READINESS_CHECK_PATH",
        "READINESS_CHECK_PATH",
        "AWS_LWA_READINESS_CHECK_PROTOCOL",
        "READINESS_CHECK_PROTOCOL",
        "AWS_LWA_REMOVE_BASE_PATH",
        "REMOVE_BASE_PATH",
        "AWS_LWA_ASYNC_INIT",
        "ASYNC_INIT",
        "AWS_LWA_ENABLE_COMPRESSION",
        "AWS_LWA_INVOKE_MODE",
        "AWS_LAMBDA_RUNTIME_API",
    ]
}

/// Two environments that agree on the listed variables give the same options and the same address
/// of the runtime API: nothing else in an environment matters.
pub proof fn law_only_the_listed_variables_matter(
    left: Map<Seq<char>, Seq<char>>,
    right: Map<Seq<char>, Seq<char>>,
)
    requires
        forall|i: int|
            0 <= i < adapter_variables().len() ==> value_of(left, #[trigger] adapter_variables()[i])
                == value_of(right, adapter_variables()[i]),
    ensures
        options_of(left) == options_of(right),
        runtime_api_of(left) == runtime_api_of(right),
{
    let names = adapter_variables();
    assert(names[0] == "AWS_LWA_HOST"@ && names[1] == "HOST"@);
    assert(names[2] == "AWS_LWA_PORT"@ && names[3] == "PORT"@);
    assert(names[4] == "AWS_LWA_READINESS_CHECK_PORT"@ && names[5] == "READINESS_CHECK_PORT"@);
    assert(names[6] == "AWS_LWA_READINESS_CHECK_MIN_UNHEALTHY_STATUS"@);
    assert(names[7] == "AWS_LWA_READINESS_CHECK_PATH"@ && names[8] == "READINESS_CHECK_PATH"@);
    assert(names[9] == "AWS_LWA_READINESS_CHECK_PROTOCOL"@);
    assert(names[10] == "READINESS_CHECK_PROTOCOL"@);
    assert(names[11] == "AWS_LWA_REMOVE_BASE_PATH"@ && names[12] == "REMOVE_BASE_PATH"@);
    assert(names[13] == "AWS_LWA_ASYNC_INIT"@ && names[14] == "ASYNC_INIT"@);
    assert(names[15] == "AWS_LWA_ENABLE_COMPRESSION"@ && names[16] == "AWS_LWA_INVOKE_MODE"@);
    assert(names[17] == "AWS_LAMBDA_RUNTIME_API"@);
}

/// A variable whose name begins with `AWS_LWA_` decides its option, whatever else is set.
pub proof fn law_prefixed_variables_decide(environment: Map<Seq<char>, Seq<char>>, value: Seq<char>)
    ensures
        options_of(environment.insert("AWS_LWA_HOST"@, value)).host == value,
        options_of(environment.insert("AWS_LWA_PORT"@, value)).port == value,
        options_of(
            environment.insert("AWS_LWA_READINESS_CHECK_PORT"@, value),
        ).readiness_check_port == value,
        options_of(
            environment.insert("AWS_LWA_READINESS_CHECK_PATH"@, value),
        ).readiness_check_path == value,
        options_of(
            environment.insert("AWS_LWA_READINESS_CHECK_PROTOCOL"@, value),
        ).readiness_check_protocol == protocol_named(lowercase(value)),
        options_of(
            environment.insert("AWS_LWA_READINESS_CHECK_PROTOCOL"@, value),
        ).readiness_check_protocol == Protocol::Tcp <==> lowercase(value) == "tcp"@,
        options_of(
            environment.insert("AWS_LWA_READINESS_CHECK_MIN_UNHEALTHY_STATUS"@, value),
        ).readiness_check_min_unhealthy_status == (match parsed_u16(value) {
            Some(status) => status,
            None => 500,
        }),
        options_of(environment.insert("AWS_LWA_ENABLE_COMPRESSION"@, value)).compression == (value
            == "true"@),
        options_of(environment.insert("AWS_LWA_INVOKE_MODE"@, value)).invoke_mode
            == LambdaInvokeMode::ResponseStream <==> lowercase(value) == "response_stream"@,
        options_of(environment.insert("AWS_LWA_REMOVE_BASE_PATH"@, value)).base_path == Some(value),
        options_of(environment.insert("AWS_LWA_ASYNC_INIT"@, value)).async_init == (value
            == "true"@),
{
}

/// An option whose variables are not set has its default, whatever else is set.
pub proof fn law_defaults_where_nothing_is_set(environment: Map<Seq<char>, Seq<char>>)
    ensures
        !environment.contains_key("AWS_LWA_HOST"@) && !environment.contains_key(
            "HOST"@,
        ) ==> options_of(environment).host == "127.0.0.1"@,
        !environment.contains_key("AWS_LWA_PORT"@) && !environment.contains_key(
            "PORT"@,
        ) ==> options_of(environment).port == "8080"@,
        !environment.contains_key("AWS_LWA_READINESS_CHECK_PATH"@) && !environment.contains_key(
            "READINESS_CHECK_PATH"@,
        ) ==> options_of(environment).readiness_check_path == "/"@,
        !environment.contains_key("AWS_LWA_READINESS_CHECK_PROTOCOL"@) && !environment.contains_key(
            "READINESS_CHECK_PROTOCOL"@,
        ) ==> options_of(environment).readiness_check_protocol == Protocol::Http,
        !environment.contains_key("AWS_LWA_REMOVE_BASE_PATH"@) && !environment.contains_key(
            "REMOVE_BASE_PATH"@,
        ) ==> options_of(environment).base_path is None,
        !environment.contains_key("AWS_LWA_ASYNC_INIT"@) && !environment.contains_key(
            "ASYNC_INIT"@,
        ) ==> options_of(environment).async_init == false,
        !environment.contains_key("AWS_LWA_READINESS_CHECK_MIN_UNHEALTHY_STATUS"@) ==> options_of(
            environment,
        ).readiness_check_min_unhealthy_status == 500,
        !environment.contains_key("AWS_LWA_ENABLE_COMPRESSION"@) ==> !options_of(
            environment,
        ).compression,
        !environment.contains_key("AWS_LWA_INVOKE_MODE"@) ==> options_of(environment).invoke_mode
            == LambdaInvokeMode::Buffered,
{
}

/// Whether two texts are the same but for capital and small ASCII letters.
pub open spec fn same_but_for_case(left: Seq<char>, right: Seq<char>) -> bool {
    &&& left.len() == right.len()
    &&& forall|i: int|
        0 <= i < left.len() ==> {
            ||| #[trigger] left[i] == right[i]
            ||| 'A' <= left[i] && left[i] <= 'Z' && left[i] as u32 + 32 == right[i] as u32
            ||| 'A' <= right[i] && right[i] <= 'Z' && right[i] as u32 + 32 == left[i] as u32
        }
}

/// A name of ASCII characters stands for TCP, or for streaming, if and only if it is that word in
/// whatever capital and small letters.
pub proof fn law_names_in_any_case(name: Seq<char>)
    ensures
        protocol_named(ascii_lowercase(name)) == Protocol::Tcp <==> same_but_for_case(name, "tcp"@),
        invoke_mode_named(ascii_lowercase(name)) == LambdaInvokeMode::ResponseStream
            <==> same_but_for_case(name, "response_stream"@),
{
    reveal_strlit("tcp");
    reveal_strlit("response_stream");
    lemma_lower_case_of_a_word(name, "tcp"@);
    lemma_lower_case_of_a_word(name, "response_stream"@);
}

proof fn lemma_lower_case_of_a_word(name: Seq<char>, word: Seq<char>)
    requires
        forall|i: int| 0 <= i < word.len() ==> !('A' <= #[trigger] word[i] && word[i] <= 'Z'),
    ensures
        ascii_lowercase(name) == word <==> same_but_for_case(name, word),
{
    let lowered = ascii_lowercase(name);
    if lowered == word {
        assert forall|i: int| 0 <= i < name.len() implies {
            ||| #[trigger] name[i] == word[i]
            ||| 'A' <= name[i] && name[i] <= 'Z' && name[i] as u32 + 32 == word[i] as u32
        } by {
            assert(lowered[i] == word[i]);
        }
    }
    if same_but_for_case(name, word) {
        assert forall|i: int| 0 <= i < name.len() implies lowered[i] == word[i] by {
            assert(!('A' <= word[i] && word[i] <= 'Z'));
            char_u32_cast(word[i], word[i] as u32);
        }
        assert(lowered == word);
    }
}

/// Options are seen as what their fields hold.
pub proof fn law_options_are_their_fields(options: AdapterOptions)
    ensures
        options@.host == options.host@,
        options@.port == options.port@,
        options@.readiness_check_port == options.readiness_check_port@,
        options@.readiness_check_path == options.readiness_check_path@,
        options@.readiness_check_protocol == options.readiness_check_protocol,
        options@.readiness_check_min_unhealthy_status
            == options.readiness_check_min_unhealthy_status,
        options.base_path is None ==> options@.base_path is None,
        options.base_path matches Some(base_path) ==> options@.base_path == Some(base_path@),
        options@.async_init == options.async_init,
        options@.compression == options.compression,
        options@.invoke_mode == options.invoke_mode,
{
}

/// Names of different lengths differ, and so do those of the same length.
proof fn lemma_variable_names_differ()
    ensures
        "AWS_LWA_HOST"@.len() == 12,
        "HOST"@.len() == 4,
        "AWS_LWA_PORT"@.len() == 12,
        "PORT"@.len() == 4,
        "AWS_LWA_READINESS_CHECK_PORT"@.len() == 28,
        "READINESS_CHECK_PORT"@.len() == 20,
        "AWS_LWA_READINESS_CHECK_MIN_UNHEALTHY_STATUS"@.len() == 44,
        "AWS_LWA_READINESS_CHECK_PATH"@.len() == 28,
        "READINESS_CHECK_PATH"@.len() == 20,
        "AWS_LWA_READINESS_CHECK_PROTOCOL"@.len() == 32,
        "READINESS_CHECK_PROTOCOL"@.len() == 24,
        "AWS_LWA_REMOVE_BASE_PATH"@.len() == 24,
        "REMOVE_BASE_PATH"@.len() == 16,
        "AWS_LWA_ASYNC_INIT"@.len() == 18,
        "ASYNC_INIT"@.len() == 10,
        "AWS_LWA_ENABLE_COMPRESSION"@.len() == 26,
        "AWS_LWA_INVOKE_MODE"@.len() == 19,
        "HOST"@ != "PORT"@,
        "READINESS_CHECK_PORT"@ != "READINESS_CHECK_PATH"@,
        "READINESS_CHECK_PROTOCOL"@ != "AWS_LWA_REMOVE_BASE_PATH"@,
{
    reveal_strlit("AWS_LWA_HOST");
    reveal_strlit("HOST");
    reveal_strlit("AWS_LWA_PORT");
    reveal_strlit("PORT");
    reveal_strlit("AWS_LWA_READINESS_CHECK_PORT");
    reveal_strlit("READINESS_CHECK_PORT");
    reveal_strlit("AWS_LWA_READINESS_CHECK_MIN_UNHEALTHY_STATUS");
    reveal_strlit("AWS_LWA_READINESS_CHECK_PATH");
    reveal_strlit("READINESS_CHECK_PATH");
    reveal_strlit("AWS_LWA_READINESS_CHECK_PROTOCOL");
    reveal_strlit("READINESS_CHECK_PROTOCOL");
    reveal_strlit("AWS_LWA_REMOVE_BASE_PATH");
    reveal_strlit("REMOVE_BASE_PATH");
    reveal_strlit("AWS_LWA_ASYNC_INIT");
    reveal_strlit("ASYNC_INIT");
    reveal_strlit("AWS_LWA_ENABLE_COMPRESSION");
    reveal_strlit("AWS_LWA_INVOKE_MODE");
    assert("HOST"@[0] != "PORT"@[0]);
    assert("READINESS_CHECK_PORT"@[17] != "READINESS_CHECK_PATH"@[17]);
    assert("READINESS_CHECK_PROTOCOL"@[0] != "AWS_LWA_REMOVE_BASE_PATH"@[0]);
}

/// Whether two environments agree on every variable but `short`, and both set `prefixed`.
pub open spec fn differ_behind(
    left: Map<Seq<char>, Seq<char>>,
    right: Map<Seq<char>, Seq<char>>,
    prefixed: Seq<char>,
    short: Seq<char>,
) -> bool {
    &&& left.contains_key(prefixed)
    &&& right.contains_key(prefixed)
    &&& forall|name: Seq<char>|
        name != short ==> #[trigger] value_of(left, name) == value_of(right, name)
}

/// Where the variable whose name begins with `AWS_LWA_` is set, the one of the same name without it
/// changes no option at all, whether it is set, changed or removed.
pub proof fn law_short_variables_give_way(
    left: Map<Seq<char>, Seq<char>>,
    right: Map<Seq<char>, Seq<char>>,
)
    requires
        ({
            ||| differ_behind(left, right, "AWS_LWA_HOST"@, "HOST"@)
            ||| differ_behind(left, right, "AWS_LWA_PORT"@, "PORT"@)
            ||| differ_behind(
                left,
                right,
                "AWS_LWA_READINESS_CHECK_PORT"@,
                "READINESS_CHECK_PORT"@,
            )
            ||| differ_behind(
                left,
                right,
                "AWS_LWA_READINESS_CHECK_PATH"@,
                "READINESS_CHECK_PATH"@,
            )
            ||| differ_behind(
                left,
                right,
                "AWS_LWA_READINESS_CHECK_PROTOCOL"@,
                "READINESS_CHECK_PROTOCOL"@,
            )
            ||| differ_behind(left, right, "AWS_LWA_REMOVE_BASE_PATH"@, "REMOVE_BASE_PATH"@)
            ||| differ_behind(left, right, "AWS_LWA_ASYNC_INIT"@, "ASYNC_INIT"@)
        }),
    ensures
        options_of(left) == options_of(right),
{
    lemma_variable_names_differ();
}

/// Where the variable whose name begins with `AWS_LWA_` is not set, the one of the same name without
/// it decides the option, whatever else is set.
pub proof fn law_short_variables_stand_in(environment: Map<Seq<char>, Seq<char>>, value: Seq<char>)
    ensures
        !environment.contains_key("AWS_LWA_HOST"@) ==> options_of(
            environment.insert("HOST"@, value),
        ).host == value,
        !environment.contains_key("AWS_LWA_PORT"@) ==> options_of(
            environment.insert("PORT"@, value),
        ).port == value,
        !environment.contains_key("AWS_LWA_READINESS_CHECK_PORT"@) ==> options_of(
            environment.insert("READINESS_CHECK_PORT"@, value),
        ).readiness_check_port == value,
        !environment.contains_key("AWS_LWA_READINESS_CHECK_PATH"@) ==> options_of(
            environment.insert("READINESS_CHECK_PATH"@, value),
        ).readiness_check_path == value,
        !environment.contains_key("AWS_LWA_READINESS_CHECK_PROTOCOL"@) ==> options_of(
            environment.insert("READINESS_CHECK_PROTOCOL"@, value),
        ).readiness_check_protocol == protocol_named(lowercase(value)),
        !environment.contains_key("AWS_LWA_READINESS_CHECK_PROTOCOL"@) ==> options_of(
            environment.insert("READINESS_CHECK_PROTOCOL"@, value),
        ).readiness_check_protocol == (if lowercase(value) == "tcp"@ {
            Protocol::Tcp
        } else {
            Protocol::Http
        }),
        !environment.contains_key("AWS_LWA_REMOVE_BASE_PATH"@) ==> options_of(
            environment.insert("REMOVE_BASE_PATH"@, value),
        ).base_path == Some(value),
        !environment.contains_key("AWS_LWA_ASYNC_INIT"@) ==> options_of(
            environment.insert("ASYNC_INIT"@, value),
        ).async_init == (value == "true"@),
{
    lemma_variable_names_differ();
}

/// The readiness check goes to the port of the web server itself, unless a port of its own is set.
pub proof fn law_readiness_port_follows_the_port(environment: Map<Seq<char>, Seq<char>>)
    requires
        !environment.contains_key("AWS_LWA_READINESS_CHECK_PORT"@),
        !environment.contains_key("READINESS_CHECK_PORT"@),
    ensures
        options_of(environment).readiness_check_port == options_of(environment).port,
{
}

} // verus!
