//! When the web server counts as ready.

use crate::adapter::{adapter_of, Adapter};
use crate::options::{law_short_variables_stand_in, options_of, Protocol};
use crate::server_url::{
    check_uri, host_of, is_http_url, uri_accepts, url_host, url_port, url_text,
};
use crate::text::{decimal, decimal_text, law_written_numbers_read_back, parsed_u16};
use url::Url;
use vstd::prelude::*;
use vstd::string::*;

verus! {

/// How long a failed readiness check is left before the next, in milliseconds.
pub const RETRY_INTERVAL_MILLIS: u64 = 10;

/// How long an adapter with asynchronous initialisation waits for the web server before it lets
/// the server go on starting in the background, in milliseconds.
pub const INIT_TIME_LIMIT_MILLIS: u64 = 9_800;

/// What a new adapter remembers of the readiness of the web server: that it is not ready.
pub const READY_AT_START: bool = false;

/// How long Lambda lets an initialisation take, in milliseconds.
pub const LAMBDA_INIT_LIMIT_MILLIS: u64 = 10_000;

/// One attempt to reach the web server: a GET request for a URI, or a connection to an address.
pub enum Probe {
    HttpGet(String),
    TcpConnect(String),
}

/// What came of an attempt.
#[derive(Clone, Copy, Debug, Eq, PartialEq, Structural)]
pub enum ProbeReply {
    /// An HTTP response with this status.
    HttpStatus(u16),
    /// An open connection.
    Connected,
    /// Neither.
    Failed,
}

/// Whether a status shows a web server that is ready: one from 100 on, below the unhealthy ones.
pub open spec fn is_healthy_status(status: u16, min_unhealthy_status: u16) -> bool {
    100 <= status < min_unhealthy_status
}

/// Whether a reply shows a web server that is ready.
pub open spec fn shows_ready(
    protocol: Protocol,
    reply: ProbeReply,
    min_unhealthy_status: u16,
) -> bool {
    match protocol {
        Protocol::Http => reply matches ProbeReply::HttpStatus(status) && is_healthy_status(
            status,
            min_unhealthy_status,
        ),
        Protocol::Tcp => reply == ProbeReply::Connected,
    }
}

/// Whether an attempt can be made at all: the URL has to be a URI for HTTP, and has to name a port
/// for TCP.
pub open spec fn can_probe(url: Seq<char>, protocol: Protocol) -> bool {
    match protocol {
        Protocol::Http => uri_accepts(url),
        Protocol::Tcp => url_port(url) is Some,
    }
}

/// The host and the port of a URL, as a connection takes them.
pub open spec fn address_of(url: Seq<char>) -> Seq<char> {
    url_host(url) + ":"@ + decimal(url_port(url)->0 as nat)
}

/// Whether `probe` is the attempt that a URL and a protocol ask for.
pub open spec fn is_probe_of(probe: Probe, url: Seq<char>, protocol: Protocol) -> bool {
    match protocol {
        Protocol::Http => probe matches Probe::HttpGet(uri) && uri@ == url,
        Protocol::Tcp => probe matches Probe::TcpConnect(address) && address@ == address_of(url),
    }
}

/// How the check at initialisation ended.
#[derive(Clone, Copy, Debug, Eq, PartialEq, Structural)]
pub enum InitOutcome {
    /// The check said whether the web server is ready.
    Finished(bool),
    /// The check was cancelled at its time limit.
    TimedOut,
}

/// How long the check at initialisation may take, in milliseconds, if it is limited.
pub open spec fn init_limit_of(async_init: bool) -> Option<u64> {
    if async_init {
        Some(INIT_TIME_LIMIT_MILLIS)
    } else {
        None
    }
}

/// What the adapter remembers of the readiness of the web server after the check at
/// initialisation, whatever it remembered until then.
pub open spec fn ready_after(outcome: InitOutcome) -> bool {
    match outcome {
        InitOutcome::Finished(ready) => ready,
        InitOutcome::TimedOut => false,
    }
}

/// What happens while an event is on its way to the web server.
#[derive(Clone, Copy, Debug, Eq, PartialEq, Structural)]
pub enum ArrivalEvent {
    /// The event arrived.
    Arrived,
    /// The wait for the web server is over, whether the server turned out ready or not.
    Waited(bool),
}

/// What is to be done next with an event.
#[derive(Clone, Copy, Debug, Eq, PartialEq, Structural)]
pub enum ArrivalAction {
    /// Wait until the web server is ready.
    AwaitReadiness,
    /// Send the event to the web server.
    Forward,
}

/// What the adapter remembers of the readiness of the web server after such an event, and
/// what it does next.
pub open spec fn arrival(
    async_init: bool,
    ready_at_init: bool,
    event: ArrivalEvent,
) -> (bool, ArrivalAction) {
    match event {
        ArrivalEvent::Arrived => if async_init && !ready_at_init {
            (false, ArrivalAction::AwaitReadiness)
        } else {
            (ready_at_init, ArrivalAction::Forward)
        },
        ArrivalEvent::Waited(_) => (true, ArrivalAction::Forward),
    }
}

/// The attempt to make for a readiness check of a URL over `protocol`, if one can be made.
pub fn probe_of(url: &Url, protocol: &Protocol) -> (probe: Option<Probe>)
    requires
        is_http_url(url_text(*url)),
    ensures
        probe is Some <==> can_probe(url_text(*url), *protocol),
        probe matches Some(probe) ==> is_probe_of(probe, url_text(*url), *protocol),
{
    match protocol {
        Protocol::Http => match check_uri(url.as_str()) {
            Ok(_) => Some(Probe::HttpGet(url.as_str().to_string())),
            Err(_) => None,
        },
        Protocol::Tcp => match url.port() {
            Some(port) => Some(
                Probe::TcpConnect(host_of(url).concat(":").concat(decimal_text(port).as_str())),
            ),
            None => None,
        },
    }
}

impl Adapter {
    /// The attempt to make for a readiness check of the web server over `protocol`, if one can be
    /// made.
    pub fn try_readiness_probe(&self, protocol: &Protocol) -> (probe: Option<Probe>)
        ensures
            probe is Some <==> can_probe(self@.healthcheck_url, *protocol),
            probe matches Some(probe) ==> is_probe_of(probe, self@.healthcheck_url, *protocol),
    {
        probe_of(self.healthcheck_url(), protocol)
    }

    /// Says whether the reply to an attempt over `protocol` shows a web server that is ready.
    pub fn check_web_readiness(&self, protocol: &Protocol, reply: ProbeReply) -> (ready: Result<
        (),
        i8,
    >)
        ensures
            ready is Ok <==> shows_ready(
                *protocol,
                reply,
                self@.healthcheck_min_unhealthy_status,
            ),
            ready matches Err(code) ==> code == -1,
            *protocol == Protocol::Http ==> (ready is Ok <==> (reply matches ProbeReply::HttpStatus(
                status,
            ) && 100 <= status && status < self@.healthcheck_min_unhealthy_status)),
            *protocol == Protocol::Tcp ==> (ready is Ok <==> reply == ProbeReply::Connected),
    {
        match protocol {
            Protocol::Http => match reply {
                ProbeReply::HttpStatus(status) => {
                    if self.healthcheck_min_unhealthy_status() > status && status >= 100 {
                        Ok(())
                    } else {
                        Err(-1)
                    }
                },
                _ => Err(-1),
            },
            Protocol::Tcp => match reply {
                ProbeReply::Connected => Ok(()),
                _ => Err(-1),
            },
        }
    }

    /// How long the check at initialisation may take, in milliseconds. Only with asynchronous
    /// initialisation is it limited, and then it ends before Lambda's own limit.
    pub fn init_time_limit(&self) -> (limit: Option<u64>)
        ensures
            limit == (if self@.async_init {
                Some(INIT_TIME_LIMIT_MILLIS)
            } else {
                None
            }),
            limit matches Some(limit) ==> limit < LAMBDA_INIT_LIMIT_MILLIS,
            limit == init_limit_of(self@.async_init),
    {
        if self.async_init() {
            Some(INIT_TIME_LIMIT_MILLIS)
        } else {
            None
        }
    }

    /// Overwrites what is remembered of the readiness of the web server with what the check at
    /// initialisation found, so the latest check decides alone. A check that was cancelled found
    /// nothing ready.
    pub fn check_init_health(&self, ready_at_init: &mut bool, outcome: InitOutcome)
        ensures
            *final(ready_at_init) == ready_after(outcome),
            *final(ready_at_init) <==> outcome == InitOutcome::Finished(true),
    {
        *ready_at_init = match outcome {
            InitOutcome::Finished(ready) => ready,
            InitOutcome::TimedOut => false,
        };
    }

    /// Decides whether an event has to wait for the web server, and what to remember.
    pub fn arrival_step(&self, ready_at_init: bool, event: ArrivalEvent) -> (step: (
        bool,
        ArrivalAction,
    ))
        ensures
            step == arrival(self@.async_init, ready_at_init, event),
            step.1 == ArrivalAction::AwaitReadiness <==> {
                &&& event == ArrivalEvent::Arrived
                &&& self@.async_init
                &&& !ready_at_init
            },
            event == ArrivalEvent::Arrived ==> step.0 == ready_at_init,
            event is Waited ==> step.0,
    {
        match event {
            ArrivalEvent::Arrived => {
                if self.async_init() && !ready_at_init {
                    (false, ArrivalAction::AwaitReadiness)
                } else {
                    (ready_at_init, ArrivalAction::Forward)
                }
            },
            ArrivalEvent::Waited(_) => (true, ArrivalAction::Forward),
        }
    }
}

/// With asynchronous initialisation an event that comes before any check waits for the web server.
pub proof fn law_new_adapters_wait()
    ensures
        arrival(true, READY_AT_START, ArrivalEvent::Arrived) == (
            false,
            ArrivalAction::AwaitReadiness,
        ),
{
}

/// With asynchronous initialisation the first event waits for the web server exactly if the check
/// at initialisation did not find it ready, in particular if the check was cancelled.
pub proof fn law_first_event_waits_unless_found_ready(outcome: InitOutcome)
    ensures
        arrival(true, ready_after(outcome), ArrivalEvent::Arrived).1
            == ArrivalAction::AwaitReadiness <==> outcome != InitOutcome::Finished(true),
        ready_after(outcome) <==> outcome == InitOutcome::Finished(true),
{
}

/// An adapter waits for the web server at most once: after a wait, whatever it found, every event
/// is forwarded at once, and the adapter keeps remembering that.
pub proof fn law_one_wait_is_enough(async_init: bool, ready_at_init: bool, found: bool)
    ensures
        arrival(async_init, ready_at_init, ArrivalEvent::Waited(found)) == (
            true,
            ArrivalAction::Forward,
        ),
        arrival(
            async_init,
            arrival(async_init, ready_at_init, ArrivalEvent::Waited(found)).0,
            ArrivalEvent::Arrived,
        ) == (true, ArrivalAction::Forward),
{
}

/// No event makes the adapter forget that the web server is ready.
pub proof fn law_readiness_is_never_forgotten(async_init: bool, event: ArrivalEvent)
    ensures
        arrival(async_init, true, event) == (true, ArrivalAction::Forward),
{
}

/// Without asynchronous initialisation no event waits, whatever the check at initialisation found.
pub proof fn law_synchronous_initialisation_never_waits(ready_at_init: bool, event: ArrivalEvent)
    ensures
        arrival(false, ready_at_init, event).1 == ArrivalAction::Forward,
{
}

/// A higher limit for unhealthy statuses never turns a ready web server into one that is not.
pub proof fn law_raising_the_limit_keeps_readiness(
    protocol: Protocol,
    reply: ProbeReply,
    lower: u16,
    higher: u16,
)
    requires
        lower <= higher,
        shows_ready(protocol, reply, lower),
    ensures
        shows_ready(protocol, reply, higher),
{
}

/// Over HTTP the statuses that show a ready web server are a row without gaps: it begins at 100 and
/// ends right before the limit, whatever the limit is.
pub proof fn law_healthy_statuses_have_no_gaps(limit: u16, status: u16, lower: u16)
    ensures
        limit > 100 ==> shows_ready(Protocol::Http, ProbeReply::HttpStatus(100), limit),
        limit > 100 ==> shows_ready(
            Protocol::Http,
            ProbeReply::HttpStatus((limit - 1) as u16),
            limit,
        ),
        100 <= lower <= status && shows_ready(
            Protocol::Http,
            ProbeReply::HttpStatus(status),
            limit,
        ) ==> shows_ready(Protocol::Http, ProbeReply::HttpStatus(lower), limit),
        status >= limit ==> !shows_ready(Protocol::Http, ProbeReply::HttpStatus(status), limit),
        status < 100 ==> !shows_ready(Protocol::Http, ProbeReply::HttpStatus(status), limit),
{
}

/// The limit that an environment sets, in decimal, is the one by which replies are judged; an
/// environment that sets none has 500. Nothing else in it matters.
pub proof fn law_environment_sets_the_limit(
    environment: Map<Seq<char>, Seq<char>>,
    limit: u16,
    status: u16,
)
    ensures
        shows_ready(
            Protocol::Http,
            ProbeReply::HttpStatus(status),
            adapter_of(
                options_of(
                    environment.insert(
                        "AWS_LWA_READINESS_CHECK_MIN_UNHEALTHY_STATUS"@,
                        decimal(limit as nat),
                    ),
                ),
            ).healthcheck_min_unhealthy_status,
        ) <==> 100 <= status && status < limit,
        shows_ready(
            Protocol::Http,
            ProbeReply::HttpStatus(status),
            adapter_of(
                options_of(environment.remove("AWS_LWA_READINESS_CHECK_MIN_UNHEALTHY_STATUS"@)),
            ).healthcheck_min_unhealthy_status,
        ) <==> 100 <= status && status < 500,
{
    law_written_numbers_read_back(limit);
}

/// Over TCP an open connection shows a ready web server and nothing else does, whatever the limit;
/// over HTTP neither an open connection nor a failure does.
pub proof fn law_replies_of_the_other_protocol_show_nothing(limit: u16, status: u16)
    ensures
        shows_ready(Protocol::Tcp, ProbeReply::Connected, limit),
        !shows_ready(Protocol::Tcp, ProbeReply::Failed, limit),
        !shows_ready(Protocol::Tcp, ProbeReply::HttpStatus(status), limit),
        !shows_ready(Protocol::Http, ProbeReply::Connected, limit),
        !shows_ready(Protocol::Http, ProbeReply::Failed, limit),
{
}

/// A readiness check over HTTP asks for the URL itself, to the last character, and can be made if
/// the URL is a URI. One over TCP connects to the host and the port of the URL: behind the host and
/// a colon stands a number that reads as the port. It can be made if the URL names a port.
pub proof fn law_probes_reach_the_url(url: Seq<char>, probe: Probe, protocol: Protocol)
    requires
        can_probe(url, protocol),
        is_probe_of(probe, url, protocol),
    ensures
        match probe {
            Probe::HttpGet(uri) => {
                &&& protocol == Protocol::Http
                &&& uri_accepts(url)
                &&& uri@ == url
            },
            Probe::TcpConnect(address) => {
                &&& protocol == Protocol::Tcp
                &&& address@.len() > url_host(url).len()
                &&& address@.take(url_host(url).len() as int) == url_host(url)
                &&& address@[url_host(url).len() as int] == ':'
                &&& url_port(url) is Some
                &&& parsed_u16(address@.skip(url_host(url).len() as int + 1)) == url_port(url)
                &&& address@.skip(url_host(url).len() as int + 1) == decimal(url_port(url)->0 as nat)
            },
        },
{
    reveal_strlit(":");
    if let Probe::TcpConnect(address) = probe {
        let port = url_port(url)->0;
        law_written_numbers_read_back(port);
        assert(address@.take(url_host(url).len() as int) == url_host(url));
        assert(address@.skip(url_host(url).len() as int + 1) == decimal(port as nat));
    }
}

/// A readiness check can be made if and only if the URL is a URI, over HTTP, or names a port, over
/// TCP.
pub proof fn law_when_probes_can_be_made(url: Seq<char>)
    ensures
        can_probe(url, Protocol::Http) <==> uri_accepts(url),
        can_probe(url, Protocol::Tcp) <==> url_port(url) is Some,
{
}

/// An arriving event changes nothing that the adapter remembers, and waits if and only if
/// initialisation is asynchronous and the web server was not found ready.
pub proof fn law_arrivals_change_nothing(async_init: bool, ready_at_init: bool)
    ensures
        arrival(async_init, ready_at_init, ArrivalEvent::Arrived).0 == ready_at_init,
        arrival(async_init, ready_at_init, ArrivalEvent::Arrived).1
            == ArrivalAction::AwaitReadiness <==> async_init && !ready_at_init,
{
}

/// The check at initialisation is limited if and only if initialisation is asynchronous, and then
/// to 9.8 of the 10 seconds that Lambda allows.
pub proof fn law_only_asynchronous_initialisation_is_limited(async_init: bool)
    ensures
        init_limit_of(async_init) is Some <==> async_init,
        init_limit_of(async_init) matches Some(limit) ==> limit == 9_800,
        LAMBDA_INIT_LIMIT_MILLIS == 10_000,
        RETRY_INTERVAL_MILLIS == 10,
{
}

/// An environment that asks for asynchronous initialisation gets it, whatever else is set: the check
/// at initialisation is limited, and the first event waits unless that check found the web server
/// ready. With any other value of the variable neither is so.
pub proof fn law_environment_asks_for_asynchronous_initialisation(
    environment: Map<Seq<char>, Seq<char>>,
    value: Seq<char>,
    outcome: InitOutcome,
)
    ensures
        ({
            let adapter = adapter_of(options_of(environment.insert("AWS_LWA_ASYNC_INIT"@, value)));
            &&& init_limit_of(adapter.async_init) is Some <==> value == "true"@
            &&& arrival(adapter.async_init, READY_AT_START, ArrivalEvent::Arrived).1
                == ArrivalAction::AwaitReadiness <==> value == "true"@
            &&& arrival(adapter.async_init, ready_after(outcome), ArrivalEvent::Arrived).1
                == ArrivalAction::AwaitReadiness <==> value == "true"@ && outcome
                != InitOutcome::Finished(true)
        }),
        !environment.contains_key("AWS_LWA_ASYNC_INIT"@) ==> {
            let adapter = adapter_of(options_of(environment.insert("ASYNC_INIT"@, value)));
            &&& init_limit_of(adapter.async_init) is Some <==> value == "true"@
            &&& arrival(adapter.async_init, ready_after(outcome), ArrivalEvent::Arrived).1
                == ArrivalAction::AwaitReadiness <==> value == "true"@ && outcome
                != InitOutcome::Finished(true)
        },
        !environment.contains_key("AWS_LWA_ASYNC_INIT"@) && !environment.contains_key(
            "ASYNC_INIT"@,
        ) ==> init_limit_of(adapter_of(options_of(environment)).async_init) is None,
{
    law_short_variables_stand_in(environment, value);
}

} // verus!
