use b2bua::config::{AppConfig, ConfigError};

const REQUIRED: [&str; 10] = [
    "SBC_SERVICE_SIP_TARGET",
    "SBC_SERVICE_PUBLIC_IP",
    "MEDIA_SERVICE_TARGET_GRPC_URL",
    "REGISTRAR_SERVICE_TARGET_GRPC_URL",
    "DIALPLAN_SERVICE_TARGET_GRPC_URL",
    "RABBITMQ_URL",
    "REDIS_URL",
    "B2BUA_SERVICE_CERT_PATH",
    "B2BUA_SERVICE_KEY_PATH",
    "GRPC_TLS_CA_PATH",
];

fn pair(name: &str, value: &str) -> (String, String) {
    (name.to_string(), value.to_string())
}

fn complete() -> Vec<(String, String)> {
    REQUIRED.iter().map(|name| pair(name, &format!("<{}>", name))).collect()
}

#[test]
fn defaults_are_filled_in() {
    let c = AppConfig::load_from_env(&complete()).unwrap();
    assert_eq!(c.grpc_listen_addr, "[::]:13081");
    assert_eq!(c.http_listen_addr, "[::]:13080");
    assert_eq!(c.sip_bind_ip, "0.0.0.0");
    assert_eq!(c.sip_port, 13084);
    assert_eq!(c.public_sip_port, 13084);
    assert_eq!(c.sip_address(), "0.0.0.0:13084");
    assert_eq!(c.media_service_url, "<MEDIA_SERVICE_TARGET_GRPC_URL>");
    assert_eq!(c.proxy_service_url, "");
    assert_eq!(c.registrar_service_url, "<REGISTRAR_SERVICE_TARGET_GRPC_URL>");
    assert_eq!(c.user_service_url, "");
    assert_eq!(c.dialplan_service_url, "<DIALPLAN_SERVICE_TARGET_GRPC_URL>");
    assert_eq!(c.rabbitmq_url, "<RABBITMQ_URL>");
    assert_eq!(c.redis_url, "<REDIS_URL>");
    assert_eq!(c.proxy_sip_addr, "proxy-service:13074");
    assert_eq!(c.sbc_sip_addr, "<SBC_SERVICE_SIP_TARGET>");
    assert_eq!(c.sbc_public_ip, "<SBC_SERVICE_PUBLIC_IP>");
    assert_eq!(c.public_ip, c.sbc_public_ip);
    assert_eq!(c.sip_realm, "sentiric_demo");
    assert_eq!(c.env, "production");
    assert_eq!(c.rust_log, "info");
    assert_eq!(c.service_version, "1.4.3");
    assert_eq!(c.cert_path, "<B2BUA_SERVICE_CERT_PATH>");
    assert_eq!(c.key_path, "<B2BUA_SERVICE_KEY_PATH>");
    assert_eq!(c.ca_path, "<GRPC_TLS_CA_PATH>");
    assert_eq!(c.clone(), c);
}

#[test]
fn set_variables_win_over_defaults() {
    let mut env = complete();
    env.push(pair("B2BUA_SERVICE_GRPC_PORT", "1"));
    env.push(pair("B2BUA_SERVICE_HTTP_PORT", "2"));
    env.push(pair("B2BUA_SERVICE_SIP_PORT", "5060"));
    env.push(pair("PROXY_SERVICE_SIP_TARGET", "10.0.0.1:5060"));
    env.push(pair("PROXY_SERVICE_TARGET_GRPC_URL", "p"));
    env.push(pair("USER_SERVICE_TARGET_GRPC_URL", "u"));
    env.push(pair("SIP_SIGNALING_SERVICE_REALM", "r"));
    env.push(pair("ENV", "test"));
    env.push(pair("RUST_LOG", "debug"));
    env.push(pair("SERVICE_VERSION", "9"));
    let c = AppConfig::load_from_env(&env).unwrap();
    assert_eq!(c.grpc_listen_addr, "[::]:1");
    assert_eq!(c.http_listen_addr, "[::]:2");
    assert_eq!(c.sip_port, 5060);
    assert_eq!(c.proxy_sip_addr, "10.0.0.1:5060");
    assert_eq!(c.proxy_service_url, "p");
    assert_eq!(c.user_service_url, "u");
    assert_eq!(c.sip_realm, "r");
    assert_eq!(c.env, "test");
    assert_eq!(c.rust_log, "debug");
    assert_eq!(c.service_version, "9");
}

#[test]
fn each_required_variable_is_missed_in_turn() {
    for (i, name) in REQUIRED.iter().enumerate() {
        let mut env = complete();
        env.truncate(i);
        let error = AppConfig::load_from_env(&env).unwrap_err();
        assert_eq!(error, ConfigError::Missing(name.to_string()));
        assert_eq!(error.message(), format!("ZORUNLU: {}", name));
        let mut env = complete();
        env.remove(i);
        let error = AppConfig::load_from_env(&env).unwrap_err();
        assert_eq!(error, ConfigError::Missing(name.to_string()));
    }
}

#[test]
fn bad_ports_come_before_missing_variables() {
    let bad = |sip: &str, grpc: &str, http: &str| {
        let env = vec![
            pair("B2BUA_SERVICE_SIP_PORT", sip),
            pair("B2BUA_SERVICE_GRPC_PORT", grpc),
            pair("B2BUA_SERVICE_HTTP_PORT", http),
        ];
        AppConfig::load_from_env(&env).unwrap_err()
    };
    let error = bad("sip", "grpc", "http");
    assert_eq!(error, ConfigError::InvalidSipPort);
    assert_eq!(error.message(), "Ge\u{e7}ersiz SIP portu");
    let error = bad("1", "grpc", "http");
    assert_eq!(error, ConfigError::InvalidGrpcAddress);
    assert_eq!(error.message(), "invalid socket address syntax");
    let error = bad("1", "2", "http");
    assert_eq!(error, ConfigError::InvalidHttpAddress);
    assert_eq!(error.message(), "invalid socket address syntax");
    assert_eq!(bad("1", "2", "3"), ConfigError::Missing("SBC_SERVICE_SIP_TARGET".to_string()));
}

#[test]
fn listening_ports_are_digits_of_sixteen_bits() {
    for (port, good) in [
        ("0", true),
        ("65535", true),
        ("00080", true),
        ("65536", false),
        ("99999999999999999999999999", false),
        ("", false),
        ("+80", false),
        ("-1", false),
        (" 80", false),
        ("80 ", false),
        ("8a", false),
    ] {
        let mut env = complete();
        env.push(pair("B2BUA_SERVICE_GRPC_PORT", port));
        let loaded = AppConfig::load_from_env(&env);
        if good {
            assert_eq!(loaded.unwrap().grpc_listen_addr, format!("[::]:{}", port));
        } else {
            assert_eq!(loaded.unwrap_err(), ConfigError::InvalidGrpcAddress);
        }
        let mut env = complete();
        env.push(pair("B2BUA_SERVICE_HTTP_PORT", port));
        let loaded = AppConfig::load_from_env(&env);
        if good {
            assert_eq!(loaded.unwrap().http_listen_addr, format!("[::]:{}", port));
        } else {
            assert_eq!(loaded.unwrap_err(), ConfigError::InvalidHttpAddress);
        }
    }
}

#[test]
fn sip_port_may_bear_a_plus() {
    let mut env = complete();
    env.push(pair("B2BUA_SERVICE_SIP_PORT", "+5061"));
    assert_eq!(AppConfig::load_from_env(&env).unwrap().sip_port, 5061);
    let mut env = complete();
    env.push(pair("B2BUA_SERVICE_SIP_PORT", "65536"));
    assert!(AppConfig::load_from_env(&env).is_err());
}
