use lambda_web_adapter::{
    variable_names, AdapterOptions, Environment, LambdaInvokeMode, Protocol,
};

fn environment(variables: &[(&str, &str)]) -> Environment {
    let mut environment = Environment::new();
    for (name, value) in variables {
        environment.set(name.to_string(), value.to_string());
    }
    environment
}

fn options(variables: &[(&str, &str)]) -> AdapterOptions {
    AdapterOptions::from_environment(&environment(variables))
}

#[test]
fn protocol_names_in_any_case() {
    for name in ["tcp", "TCP", "Tcp", "tCp"] {
        assert_eq!(Protocol::from(name), Protocol::Tcp);
    }
    for name in ["http", "HTTP", "Http"] {
        assert_eq!(Protocol::from(name), Protocol::Http);
    }
}

#[test]
fn unknown_protocol_names_stand_for_http() {
    for name in ["", "udp", "tcp ", "https", "ＴＣＰ"] {
        assert_eq!(Protocol::from(name), Protocol::Http);
    }
    assert_eq!(Protocol::default(), Protocol::Http);
}

#[test]
fn invoke_mode_names_in_any_case() {
    for name in ["response_stream", "RESPONSE_STREAM", "Response_Stream"] {
        assert_eq!(LambdaInvokeMode::from(name), LambdaInvokeMode::ResponseStream);
    }
    for name in ["buffered", "BUFFERED", "", "stream", "response-stream"] {
        assert_eq!(LambdaInvokeMode::from(name), LambdaInvokeMode::Buffered);
    }
    assert_eq!(LambdaInvokeMode::default(), LambdaInvokeMode::Buffered);
}

#[test]
fn later_assignments_replace_earlier_ones() {
    let mut environment = environment(&[("A", "1"), ("B", "2"), ("A", "3")]);
    assert_eq!(environment.get("A"), Some("3".to_string()));
    assert_eq!(environment.get("B"), Some("2".to_string()));
    assert_eq!(environment.get("C"), None);
    environment.set("C".to_string(), "".to_string());
    assert_eq!(environment.get("C"), Some("".to_string()));
    assert_eq!(environment.first("D", "A"), Some("3".to_string()));
    assert_eq!(environment.first("B", "A"), Some("2".to_string()));
    assert_eq!(environment.first("D", "E"), None);
}

#[test]
fn options_of_an_empty_environment() {
    let options = options(&[]);
    assert_eq!(options.host, "127.0.0.1");
    assert_eq!(options.port, "8080");
    assert_eq!(options.readiness_check_port, "8080");
    assert_eq!(options.readiness_check_path, "/");
    assert_eq!(options.readiness_check_protocol, Protocol::Http);
    assert_eq!(options.readiness_check_min_unhealthy_status, 500);
    assert_eq!(options.base_path, None);
    assert!(!options.async_init);
    assert!(!options.compression);
    assert_eq!(options.invoke_mode, LambdaInvokeMode::Buffered);
}

#[test]
fn options_of_the_short_names() {
    let options = options(&[
        ("HOST", "localhost"),
        ("PORT", "3000"),
        ("READINESS_CHECK_PORT", "3001"),
        ("READINESS_CHECK_PATH", "/up"),
        ("READINESS_CHECK_PROTOCOL", "TCP"),
        ("REMOVE_BASE_PATH", "/v1"),
        ("ASYNC_INIT", "true"),
    ]);
    assert_eq!(options.host, "localhost");
    assert_eq!(options.port, "3000");
    assert_eq!(options.readiness_check_port, "3001");
    assert_eq!(options.readiness_check_path, "/up");
    assert_eq!(options.readiness_check_protocol, Protocol::Tcp);
    assert_eq!(options.base_path, Some("/v1".to_string()));
    assert!(options.async_init);
}

#[test]
fn prefixed_names_come_before_the_short_ones() {
    let options = options(&[
        ("AWS_LWA_HOST", "10.0.0.1"),
        ("HOST", "localhost"),
        ("AWS_LWA_PORT", "4000"),
        ("PORT", "3000"),
        ("AWS_LWA_READINESS_CHECK_PORT", "4001"),
        ("READINESS_CHECK_PORT", "3001"),
        ("AWS_LWA_READINESS_CHECK_PATH", "/ready"),
        ("READINESS_CHECK_PATH", "/up"),
        ("AWS_LWA_READINESS_CHECK_PROTOCOL", "http"),
        ("READINESS_CHECK_PROTOCOL", "tcp"),
        ("AWS_LWA_REMOVE_BASE_PATH", "/v2"),
        ("REMOVE_BASE_PATH", "/v1"),
        ("AWS_LWA_ASYNC_INIT", "false"),
        ("ASYNC_INIT", "true"),
        ("AWS_LWA_ENABLE_COMPRESSION", "true"),
        ("AWS_LWA_INVOKE_MODE", "RESPONSE_STREAM"),
        ("AWS_LWA_READINESS_CHECK_MIN_UNHEALTHY_STATUS", "400"),
    ]);
    assert_eq!(options.host, "10.0.0.1");
    assert_eq!(options.port, "4000");
    assert_eq!(options.readiness_check_port, "4001");
    assert_eq!(options.readiness_check_path, "/ready");
    assert_eq!(options.readiness_check_protocol, Protocol::Http);
    assert_eq!(options.base_path, Some("/v2".to_string()));
    assert!(!options.async_init);
    assert!(options.compression);
    assert_eq!(options.invoke_mode, LambdaInvokeMode::ResponseStream);
    assert_eq!(options.readiness_check_min_unhealthy_status, 400);
}

#[test]
fn short_names_give_way_to_the_prefixed_ones() {
    let alone = options(&[("AWS_LWA_PORT", "4000"), ("AWS_LWA_HOST", "10.0.0.1")]);
    let both = options(&[
        ("AWS_LWA_PORT", "4000"),
        ("AWS_LWA_HOST", "10.0.0.1"),
        ("PORT", "3000"),
        ("HOST", "localhost"),
    ]);
    assert_eq!(both.host, alone.host);
    assert_eq!(both.port, alone.port);
    assert_eq!(both.readiness_check_port, alone.readiness_check_port);
    assert_eq!(both.readiness_check_path, alone.readiness_check_path);
    assert_eq!(both.readiness_check_protocol, alone.readiness_check_protocol);
    assert_eq!(both.base_path, alone.base_path);
    assert_eq!(both.async_init, alone.async_init);
}

#[test]
fn readiness_port_follows_the_port() {
    assert_eq!(options(&[("PORT", "3000")]).readiness_check_port, "3000");
    assert_eq!(options(&[("AWS_LWA_PORT", "4000"), ("PORT", "3000")]).readiness_check_port, "4000");
    assert_eq!(
        options(&[("PORT", "3000"), ("READINESS_CHECK_PORT", "9")]).readiness_check_port,
        "9"
    );
}

#[test]
fn what_cannot_be_read_falls_back_to_the_default() {
    for text in ["", "abc", "65536", "-1", " 400"] {
        let options = options(&[("AWS_LWA_READINESS_CHECK_MIN_UNHEALTHY_STATUS", text)]);
        assert_eq!(options.readiness_check_min_unhealthy_status, 500);
    }
    for text in ["", "1", "TRUE", "yes"] {
        let options = options(&[
            ("AWS_LWA_ASYNC_INIT", text),
            ("ASYNC_INIT", "true"),
            ("AWS_LWA_ENABLE_COMPRESSION", text),
        ]);
        assert!(!options.async_init);
        assert!(!options.compression);
    }
}

#[test]
fn variables_that_are_not_listed_change_nothing() {
    let names = variable_names();
    assert_eq!(names.len(), 18);
    for name in ["PATH", "AWS_LWA_ENABLE_COMPRESSION_", "READINESS_CHECK_MIN_UNHEALTHY_STATUS"] {
        assert!(!names.contains(&name));
        let options = options(&[(name, "400")]);
        assert_eq!(options.port, "8080");
        assert_eq!(options.readiness_check_min_unhealthy_status, 500);
    }
    for name in [
        "AWS_LWA_HOST", "HOST", "AWS_LWA_PORT", "PORT", "AWS_LWA_READINESS_CHECK_PORT",
        "READINESS_CHECK_PORT", "AWS_LWA_READINESS_CHECK_PATH", "READINESS_CHECK_PATH",
        "AWS_LWA_READINESS_CHECK_PROTOCOL", "READINESS_CHECK_PROTOCOL", "AWS_LWA_REMOVE_BASE_PATH",
        "REMOVE_BASE_PATH", "AWS_LWA_ASYNC_INIT", "ASYNC_INIT", "AWS_LWA_ENABLE_COMPRESSION",
        "AWS_LWA_INVOKE_MODE", "AWS_LWA_READINESS_CHECK_MIN_UNHEALTHY_STATUS",
        "AWS_LAMBDA_RUNTIME_API",
    ] {
        assert!(names.contains(&name));
    }
}
