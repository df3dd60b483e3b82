//! The adapter: what it knows of the web server once its options are fixed.

use crate::environment::optional_text;
use crate::options::{AdapterOptions, LambdaInvokeMode, OptionsView, Protocol};
use crate::server_url::{is_http_url, url_parse, url_text};
use url::Url;
use vstd::prelude::*;
use vstd::string::*;

verus! {

/// An adapter in front of a web server.
pub struct Adapter {
    healthcheck_url: Url,
    healthcheck_protocol: Protocol,
    healthcheck_min_unhealthy_status: u16,
    async_init: bool,
    domain: Url,
    base_path: Option<String>,
    compression: bool,
    invoke_mode: LambdaInvokeMode,
}

/// The value of an [`Adapter`], with its URLs and texts as sequences of characters.
pub struct AdapterView {
    pub healthcheck_url: Seq<char>,
    pub healthcheck_protocol: Protocol,
    pub healthcheck_min_unhealthy_status: u16,
    pub async_init: bool,
    pub domain: Seq<char>,
    pub base_path: Option<Seq<char>>,
    pub compression: bool,
    pub invoke_mode: LambdaInvokeMode,
}

impl View for Adapter {
    type V = AdapterView;

    closed spec fn view(&self) -> AdapterView {
        AdapterView {
            healthcheck_url: url_text(self.healthcheck_url),
            healthcheck_protocol: self.healthcheck_protocol,
            healthcheck_min_unhealthy_status: self.healthcheck_min_unhealthy_status,
            async_init: self.async_init,
            domain: url_text(self.domain),
            base_path: optional_text(self.base_path),
            compression: self.compression,
            invoke_mode: self.invoke_mode,
        }
    }
}

impl AdapterView {
    /// Both URLs of an adapter are `http` URLs.
    pub open spec fn well_formed(self) -> bool {
        &&& is_http_url(self.healthcheck_url)
        &&& is_http_url(self.domain)
    }
}

/// The text of the URL of the web server, as the options spell it.
pub open spec fn domain_text(options: OptionsView) -> Seq<char> {
    "http://"@ + options.host + ":"@ + options.port
}

/// The text of the URL of the readiness check, as the options spell it.
pub open spec fn healthcheck_text(options: OptionsView) -> Seq<char> {
    "http://"@ + options.host + ":"@ + options.readiness_check_port + options.readiness_check_path
}

/// Whether both texts can be parsed as URLs.
pub open spec fn options_usable(options: OptionsView) -> bool {
    &&& url_parse(healthcheck_text(options)) is Some
    &&& url_parse(domain_text(options)) is Some
}

/// The adapter that usable options stand for.
pub open spec fn adapter_of(options: OptionsView) -> AdapterView {
    AdapterView {
        healthcheck_url: url_parse(healthcheck_text(options))->0,
        healthcheck_protocol: options.readiness_check_protocol,
        healthcheck_min_unhealthy_status: options.readiness_check_min_unhealthy_status,
        async_init: options.async_init,
        domain: url_parse(domain_text(options))->0,
        base_path: options.base_path,
        compression: options.compression,
        invoke_mode: options.invoke_mode,
    }
}

/// The readiness check goes to the host of the web server, to the port and the path of its own:
/// options that agree on these three have the same URL of the readiness check, whatever the port of
/// the web server and all else are.
pub proof fn law_readiness_check_ignores_the_port(left: OptionsView, right: OptionsView)
    requires
        left.host == right.host,
        left.readiness_check_port == right.readiness_check_port,
        left.readiness_check_path == right.readiness_check_path,
    ensures
        healthcheck_text(left) == healthcheck_text(right),
        adapter_of(left).healthcheck_url == adapter_of(right).healthcheck_url,
{
}

/// Requests go to the host and the port of the web server: options that agree on these two have the
/// same URL of the web server, whatever the readiness check is.
pub proof fn law_web_server_ignores_the_readiness_check(left: OptionsView, right: OptionsView)
    requires
        left.host == right.host,
        left.port == right.port,
    ensures
        domain_text(left) == domain_text(right),
        adapter_of(left).domain == adapter_of(right).domain,
{
}

/// Both URLs are parsed of texts that hold the host, the port and the path of the options in full,
/// one after the other, whatever the other options are. With the port of the web server for the
/// readiness check and no path, the two texts are one.
pub proof fn law_urls_spell_the_options(options: OptionsView)
    ensures
        url_parse(
            "http://"@ + options.host + ":"@ + options.readiness_check_port
                + options.readiness_check_path,
        ) matches Some(url) ==> adapter_of(options).healthcheck_url == url,
        url_parse("http://"@ + options.host + ":"@ + options.port) matches Some(url) ==> adapter_of(
            options,
        ).domain == url,
        options_usable(options) <==> {
            &&& url_parse(
                "http://"@ + options.host + ":"@ + options.readiness_check_port
                    + options.readiness_check_path,
            ) is Some
            &&& url_parse("http://"@ + options.host + ":"@ + options.port) is Some
        },
        options.readiness_check_port == options.port && options.readiness_check_path.len() == 0
            ==> healthcheck_text(options) == domain_text(options),
{
    if options.readiness_check_port == options.port && options.readiness_check_path.len() == 0 {
        assert(healthcheck_text(options) == domain_text(options));
    }
}

/// What is no URL reaches the adapter as the options say it, each option on its own: an adapter
/// counts as asynchronous, compresses, streams, trims paths and judges replies if and as the options
/// say so, whatever the other options are.
pub proof fn law_options_reach_the_adapter(options: OptionsView)
    ensures
        adapter_of(options).async_init <==> options.async_init,
        adapter_of(options).compression <==> options.compression,
        adapter_of(options).invoke_mode == options.invoke_mode,
        adapter_of(options).base_path == options.base_path,
        adapter_of(options).healthcheck_protocol == options.readiness_check_protocol,
        adapter_of(options).healthcheck_min_unhealthy_status
            == options.readiness_check_min_unhealthy_status,
{
}

/// How responses reach Lambda: whole or as a stream, compressed on the way or not.
#[derive(Clone, Copy, Debug, Eq, PartialEq, Structural)]
pub enum RunPlan {
    Buffered,
    Stream,
    CompressedBuffered,
    CompressedStream,
}

/// Whether responses are compressed on the way.
pub open spec fn compresses(plan: RunPlan) -> bool {
    plan == RunPlan::CompressedBuffered || plan == RunPlan::CompressedStream
}

/// Whether responses reach Lambda as a stream.
pub open spec fn streams(plan: RunPlan) -> bool {
    plan == RunPlan::Stream || plan == RunPlan::CompressedStream
}

/// How an adapter is to be run.
pub open spec fn plan_of(adapter: AdapterView) -> RunPlan {
    match (adapter.compression, adapter.invoke_mode) {
        (true, LambdaInvokeMode::Buffered) => RunPlan::CompressedBuffered,
        (true, LambdaInvokeMode::ResponseStream) => RunPlan::CompressedStream,
        (false, LambdaInvokeMode::Buffered) => RunPlan::Buffered,
        (false, LambdaInvokeMode::ResponseStream) => RunPlan::Stream,
    }
}

/// Compression and streaming have nothing to do with each other: responses are compressed exactly
/// if the options say so, and streamed exactly if the options say so.
pub proof fn law_compression_and_streaming_are_independent(options: OptionsView)
    ensures
        compresses(plan_of(adapter_of(options))) <==> options.compression,
        streams(plan_of(adapter_of(options))) <==> options.invoke_mode
            == LambdaInvokeMode::ResponseStream,
{
}

/// Why no adapter can be made of some options.
pub enum OptionsError {
    HealthcheckUrl(url::ParseError),
    Domain(url::ParseError),
}

fn write_healthcheck(options: &AdapterOptions) -> (text: String)
    ensures
        text@ == healthcheck_text(options@),
        is_http_url(text@),
{
    let text: String = "http://".to_string().concat(options.host.as_str()).concat(":").concat(
        options.readiness_check_port.as_str(),
    ).concat(options.readiness_check_path.as_str());
    assert(text@.take("http://"@.len() as int) == "http://"@);
    text
}

fn write_domain(options: &AdapterOptions) -> (text: String)
    ensures
        text@ == domain_text(options@),
        is_http_url(text@),
{
    let text: String = "http://".to_string().concat(options.host.as_str()).concat(":").concat(
        options.port.as_str(),
    );
    assert(text@.take("http://"@.len() as int) == "http://"@);
    text
}

impl Adapter {
    #[verifier::type_invariant]
    spec fn urls_are_http(self) -> bool {
        self@.well_formed()
    }

    /// Makes an adapter of options whose URLs can be parsed.
    pub fn new(options: &AdapterOptions) -> (adapter: Adapter)
        requires
            options_usable(options@),
        ensures
            adapter@ == adapter_of(options@),
            adapter@.well_formed(),
            url_parse(
                "http://"@ + options.host@ + ":"@ + options.readiness_check_port@
                    + options.readiness_check_path@,
            ) == Some(adapter@.healthcheck_url),
            url_parse("http://"@ + options.host@ + ":"@ + options.port@) == Some(adapter@.domain),
            adapter@.healthcheck_protocol == options.readiness_check_protocol,
            adapter@.healthcheck_min_unhealthy_status
                == options.readiness_check_min_unhealthy_status,
            adapter@.async_init == options.async_init,
            adapter@.base_path == optional_text(options.base_path),
            adapter@.compression == options.compression,
            adapter@.invoke_mode == options.invoke_mode,
    {
        let healthcheck_url: Url = Url::parse(write_healthcheck(options).as_str()).unwrap();
        let domain: Url = Url::parse(write_domain(options).as_str()).unwrap();
        Adapter {
            healthcheck_url,
            healthcheck_protocol: options.readiness_check_protocol,
            healthcheck_min_unhealthy_status: options.readiness_check_min_unhealthy_status,
            async_init: options.async_init,
            domain,
            base_path: match &options.base_path {
                Some(base_path) => Some(base_path.clone()),
                None => None,
            },
            compression: options.compression,
            invoke_mode: options.invoke_mode,
        }
    }

    /// Makes an adapter of any options, or says which URL cannot be parsed.
    pub fn try_new(options: &AdapterOptions) -> (adapter: Result<Adapter, OptionsError>)
        ensures
            adapter is Ok <==> options_usable(options@),
            adapter matches Ok(adapter) ==> adapter@ == adapter_of(options@),
            adapter matches Ok(adapter) ==> adapter@.well_formed(),
            adapter matches Ok(adapter) ==> url_parse(
                "http://"@ + options.host@ + ":"@ + options.readiness_check_port@
                    + options.readiness_check_path@,
            ) == Some(adapter@.healthcheck_url),
            adapter matches Ok(adapter) ==> url_parse(
                "http://"@ + options.host@ + ":"@ + options.port@,
            ) == Some(adapter@.domain),
            adapter matches Ok(adapter) ==> adapter@.healthcheck_protocol
                == options.readiness_check_protocol,
            adapter matches Ok(adapter) ==> adapter@.healthcheck_min_unhealthy_status
                == options.readiness_check_min_unhealthy_status,
            adapter matches Ok(adapter) ==> adapter@.async_init == options.async_init,
            adapter matches Ok(adapter) ==> adapter@.base_path == optional_text(options.base_path),
            adapter matches Ok(adapter) ==> adapter@.compression == options.compression,
            adapter matches Ok(adapter) ==> adapter@.invoke_mode == options.invoke_mode,
            adapter is Ok <==> {
                &&& url_parse(
                    "http://"@ + options.host@ + ":"@ + options.readiness_check_port@
                        + options.readiness_check_path@,
                ) is Some
                &&& url_parse("http://"@ + options.host@ + ":"@ + options.port@) is Some
            },
            adapter matches Err(OptionsError::HealthcheckUrl(_)) <==> url_parse(
                healthcheck_text(options@),
            ) is None,
            adapter matches Err(OptionsError::Domain(_)) <==> {
                &&& url_parse(healthcheck_text(options@)) is Some
                &&& url_parse(domain_text(options@)) is None
            },
    {
        match Url::parse(write_healthcheck(options).as_str()) {
            Ok(_) => {},
            Err(error) => {
                return Err(OptionsError::HealthcheckUrl(error));
            },
        }
        match Url::parse(write_domain(options).as_str()) {
            Ok(_) => {},
            Err(error) => {
                return Err(OptionsError::Domain(error));
            },
        }
        Ok(Adapter::new(options))
    }

    /// The URL of the readiness check.
    pub fn healthcheck_url(&self) -> (url: &Url)
        ensures
            url_text(*url) == self@.healthcheck_url,
            is_http_url(url_text(*url)),
    {
        proof {
            use_type_invariant(self);
        }
        &self.healthcheck_url
    }

    /// The protocol of the readiness check.
    pub fn healthcheck_protocol(&self) -> (protocol: Protocol)
        ensures
            protocol == self@.healthcheck_protocol,
    {
        self.healthcheck_protocol
    }

    /// The lowest status that counts as unhealthy.
    pub fn healthcheck_min_unhealthy_status(&self) -> (status: u16)
        ensures
            status == self@.healthcheck_min_unhealthy_status,
    {
        self.healthcheck_min_unhealthy_status
    }

    /// Whether the web server may still be starting when the adapter takes its first event.
    pub fn async_init(&self) -> (async_init: bool)
        ensures
            async_init == self@.async_init,
    {
        self.async_init
    }

    /// The URL of the web server.
    pub fn domain(&self) -> (url: &Url)
        ensures
            url_text(*url) == self@.domain,
            is_http_url(url_text(*url)),
    {
        proof {
            use_type_invariant(self);
        }
        &self.domain
    }

    /// What is removed from the beginning of each path, if anything.
    pub fn base_path(&self) -> (base_path: Option<&str>)
        ensures
            base_path is Some <==> self@.base_path is Some,
            base_path matches Some(text) ==> self@.base_path == Some(text@),
    {
        match &self.base_path {
            Some(base_path) => Some(base_path.as_str()),
            None => None,
        }
    }

    /// Decides how the adapter is to be run.
    pub fn run_plan(&self) -> (plan: RunPlan)
        ensures
            plan == (match (self@.compression, self@.invoke_mode) {
                (true, LambdaInvokeMode::Buffered) => RunPlan::CompressedBuffered,
                (true, LambdaInvokeMode::ResponseStream) => RunPlan::CompressedStream,
                (false, LambdaInvokeMode::Buffered) => RunPlan::Buffered,
                (false, LambdaInvokeMode::ResponseStream) => RunPlan::Stream,
            }),
            plan == plan_of(self@),
            compresses(plan) <==> self@.compression,
            streams(plan) <==> self@.invoke_mode == LambdaInvokeMode::ResponseStream,
    {
        if self.compression {
            match self.invoke_mode {
                LambdaInvokeMode::Buffered => RunPlan::CompressedBuffered,
                LambdaInvokeMode::ResponseStream => RunPlan::CompressedStream,
            }
        } else {
            match self.invoke_mode {
                LambdaInvokeMode::Buffered => RunPlan::Buffered,
                LambdaInvokeMode::ResponseStream => RunPlan::Stream,
            }
        }
    }
}

} // verus!
