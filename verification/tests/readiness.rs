use lambda_web_adapter::{
    probe_of, Adapter, AdapterOptions, ArrivalAction, ArrivalEvent, Environment, InitOutcome,
    LambdaInvokeMode, OptionsError, Probe, ProbeReply, Protocol, RunPlan, INIT_TIME_LIMIT_MILLIS,
    READY_AT_START, RETRY_INTERVAL_MILLIS,
};

fn defaults() -> AdapterOptions {
    AdapterOptions::from_environment(&Environment::new())
}

fn adapter(options: AdapterOptions) -> Adapter {
    match Adapter::try_new(&options) {
        Ok(adapter) => adapter,
        Err(_) => panic!("these options are usable"),
    }
}

fn http_get(adapter: &Adapter, protocol: &Protocol) -> String {
    match adapter.try_readiness_probe(protocol) {
        Some(Probe::HttpGet(uri)) => uri,
        _ => panic!("no HTTP request"),
    }
}

fn tcp_connect(adapter: &Adapter, protocol: &Protocol) -> String {
    match adapter.try_readiness_probe(protocol) {
        Some(Probe::TcpConnect(address)) => address,
        _ => panic!("no TCP connection"),
    }
}

#[test]
fn test_status_200_is_ok() {
    let options = AdapterOptions {
        host: "127.0.0.1".to_string(),
        port: "34567".to_string(),
        readiness_check_port: "34567".to_string(),
        readiness_check_path: "/healthcheck".to_string(),
        ..defaults()
    };

    let adapter = Adapter::new(&options);

    let protocol = adapter.healthcheck_protocol();

    assert_eq!(adapter.healthcheck_url().as_str(), "http://127.0.0.1:34567/healthcheck");
    assert_eq!(http_get(&adapter, &protocol), "http://127.0.0.1:34567/healthcheck");
    assert!(adapter.check_web_readiness(&protocol, ProbeReply::HttpStatus(200)).is_ok());
}

#[test]
fn test_status_500_is_bad() {
    let options = AdapterOptions {
        host: "127.0.0.1".to_string(),
        port: "34567".to_string(),
        readiness_check_port: "34567".to_string(),
        readiness_check_path: "/healthcheck".to_string(),
        ..defaults()
    };

    let adapter = Adapter::new(&options);

    let protocol = adapter.healthcheck_protocol();

    assert_eq!(http_get(&adapter, &protocol), "http://127.0.0.1:34567/healthcheck");
    assert!(!adapter.check_web_readiness(&protocol, ProbeReply::HttpStatus(500)).is_ok());
}

#[test]
fn test_status_403_is_bad_when_configured() {
    let options = AdapterOptions {
        host: "127.0.0.1".to_string(),
        port: "34567".to_string(),
        readiness_check_port: "34567".to_string(),
        readiness_check_path: "/healthcheck".to_string(),
        readiness_check_min_unhealthy_status: 400,
        ..defaults()
    };

    let adapter = Adapter::new(&options);

    let protocol = adapter.healthcheck_protocol();

    assert_eq!(http_get(&adapter, &protocol), "http://127.0.0.1:34567/healthcheck");
    assert!(!adapter.check_web_readiness(&protocol, ProbeReply::HttpStatus(403)).is_ok());
}

#[test]
fn statuses_at_the_edges() {
    let adapter = adapter(defaults());
    for status in [100, 200, 404, 499] {
        assert_eq!(
            adapter.check_web_readiness(&Protocol::Http, ProbeReply::HttpStatus(status)),
            Ok(())
        );
    }
    for status in [0, 99, 500, 999] {
        assert_eq!(
            adapter.check_web_readiness(&Protocol::Http, ProbeReply::HttpStatus(status)),
            Err(-1)
        );
    }
}

#[test]
fn replies_of_each_protocol() {
    let adapter = adapter(defaults());
    assert_eq!(adapter.check_web_readiness(&Protocol::Http, ProbeReply::Failed), Err(-1));
    assert_eq!(adapter.check_web_readiness(&Protocol::Http, ProbeReply::Connected), Err(-1));
    assert_eq!(adapter.check_web_readiness(&Protocol::Tcp, ProbeReply::Connected), Ok(()));
    assert_eq!(adapter.check_web_readiness(&Protocol::Tcp, ProbeReply::Failed), Err(-1));
}

#[test]
fn raising_the_limit_keeps_readiness() {
    let strict = adapter(AdapterOptions { readiness_check_min_unhealthy_status: 400, ..defaults() });
    let lax = adapter(defaults());
    for status in 0..1000 {
        let reply = ProbeReply::HttpStatus(status);
        if strict.check_web_readiness(&Protocol::Http, reply).is_ok() {
            assert!(lax.check_web_readiness(&Protocol::Http, reply).is_ok());
        }
    }
}

#[test]
fn urls_are_kept_as_they_were_parsed() {
    let adapter = adapter(AdapterOptions {
        host: "EXAMPLE.com".to_string(),
        port: "80".to_string(),
        readiness_check_port: "080".to_string(),
        readiness_check_path: "/a/../b c".to_string(),
        ..defaults()
    });
    assert_eq!(adapter.healthcheck_url().as_str(), "http://example.com/b%20c");
    assert_eq!(adapter.domain().as_str(), "http://example.com/");
}

#[test]
fn options_without_a_healthcheck_url() {
    let options = AdapterOptions { host: "".to_string(), ..defaults() };
    assert!(matches!(Adapter::try_new(&options), Err(OptionsError::HealthcheckUrl(_))));
}

#[test]
fn options_without_a_domain() {
    let options = AdapterOptions { port: "none".to_string(), ..defaults() };
    assert!(matches!(Adapter::try_new(&options), Err(OptionsError::Domain(_))));
}

#[test]
fn tcp_connects_to_host_and_port() {
    let adapter = adapter(AdapterOptions {
        host: "LOCALHOST".to_string(),
        readiness_check_port: "9090".to_string(),
        readiness_check_path: "/ignored".to_string(),
        readiness_check_protocol: Protocol::Tcp,
        ..defaults()
    });
    assert_eq!(adapter.healthcheck_protocol(), Protocol::Tcp);
    assert_eq!(tcp_connect(&adapter, &Protocol::Tcp), "localhost:9090");
}

#[test]
fn tcp_connects_to_an_ipv6_address() {
    let adapter = adapter(AdapterOptions { host: "[::0:1]".to_string(), ..defaults() });
    assert_eq!(tcp_connect(&adapter, &Protocol::Tcp), "[::1]:8080");
}

#[test]
fn tcp_needs_a_port_that_is_not_the_default() {
    let options = AdapterOptions { readiness_check_port: "80".to_string(), ..defaults() };
    assert!(adapter(options).try_readiness_probe(&Protocol::Tcp).is_none());
}

#[test]
fn http_needs_a_uri() {
    let options = AdapterOptions { readiness_check_path: "/a".repeat(40_000), ..defaults() };
    assert!(adapter(options).try_readiness_probe(&Protocol::Http).is_none());
}

#[test]
fn probes_of_any_http_url() {
    let url = url::Url::parse("http://Example.com:81/up?x").unwrap();
    assert!(matches!(
        probe_of(&url, &Protocol::Http),
        Some(Probe::HttpGet(uri)) if uri == "http://example.com:81/up?x"
    ));
    assert!(matches!(
        probe_of(&url, &Protocol::Tcp),
        Some(Probe::TcpConnect(address)) if address == "example.com:81"
    ));
    let url = url::Url::parse("http://example.com/").unwrap();
    assert!(probe_of(&url, &Protocol::Http).is_some());
    assert!(probe_of(&url, &Protocol::Tcp).is_none());
}

#[test]
fn new_adapters_wait() {
    assert!(!READY_AT_START);
    let adapter = adapter(AdapterOptions { async_init: true, ..defaults() });
    assert_eq!(
        adapter.arrival_step(READY_AT_START, ArrivalEvent::Arrived),
        (false, ArrivalAction::AwaitReadiness)
    );
}

#[test]
fn initialisation_is_limited_only_when_asynchronous() {
    assert_eq!(adapter(defaults()).init_time_limit(), None);
    let adapter = adapter(AdapterOptions { async_init: true, ..defaults() });
    assert!(adapter.async_init());
    assert_eq!(adapter.init_time_limit(), Some(9_800));
    assert_eq!(INIT_TIME_LIMIT_MILLIS, 9_800);
    assert_eq!(RETRY_INTERVAL_MILLIS, 10);
}

#[test]
fn initialisation_that_ran_out_of_time_found_nothing_ready() {
    let adapter = adapter(AdapterOptions { async_init: true, ..defaults() });
    for before in [false, true] {
        let after = |outcome: InitOutcome| {
            let mut ready = before;
            adapter.check_init_health(&mut ready, outcome);
            ready
        };
        assert!(!after(InitOutcome::TimedOut));
        assert!(!after(InitOutcome::Finished(false)));
        assert!(after(InitOutcome::Finished(true)));
    }
}

#[test]
fn latest_check_decides() {
    let adapter = adapter(AdapterOptions { async_init: true, ..defaults() });
    let mut ready = false;
    adapter.check_init_health(&mut ready, InitOutcome::Finished(true));
    assert!(ready);
    adapter.check_init_health(&mut ready, InitOutcome::TimedOut);
    assert!(!ready);
    assert_eq!(
        adapter.arrival_step(ready, ArrivalEvent::Arrived),
        (false, ArrivalAction::AwaitReadiness)
    );
}

#[test]
fn first_event_waits_when_the_server_was_not_ready() {
    let adapter = adapter(AdapterOptions { async_init: true, ..defaults() });
    let (ready, action) = adapter.arrival_step(false, ArrivalEvent::Arrived);
    assert_eq!((ready, action), (false, ArrivalAction::AwaitReadiness));
    for found in [false, true] {
        let (ready, action) = adapter.arrival_step(ready, ArrivalEvent::Waited(found));
        assert_eq!((ready, action), (true, ArrivalAction::Forward));
        assert_eq!(
            adapter.arrival_step(ready, ArrivalEvent::Arrived),
            (true, ArrivalAction::Forward)
        );
    }
}

#[test]
fn events_go_on_at_once_when_the_server_was_ready() {
    let adapter = adapter(AdapterOptions { async_init: true, ..defaults() });
    assert_eq!(adapter.arrival_step(true, ArrivalEvent::Arrived), (true, ArrivalAction::Forward));
}

#[test]
fn events_never_wait_without_asynchronous_initialisation() {
    let adapter = adapter(defaults());
    for ready in [false, true] {
        assert_eq!(adapter.arrival_step(ready, ArrivalEvent::Arrived), (ready, ArrivalAction::Forward));
    }
}

#[test]
fn run_plans() {
    let plans = [
        (false, LambdaInvokeMode::Buffered, RunPlan::Buffered),
        (false, LambdaInvokeMode::ResponseStream, RunPlan::Stream),
        (true, LambdaInvokeMode::Buffered, RunPlan::CompressedBuffered),
        (true, LambdaInvokeMode::ResponseStream, RunPlan::CompressedStream),
    ];
    for (compression, invoke_mode, plan) in plans {
        let adapter = adapter(AdapterOptions { compression, invoke_mode, ..defaults() });
        assert_eq!(adapter.run_plan(), plan);
    }
}
