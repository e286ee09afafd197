use b2bua::config::AppConfig;
use b2bua::sip::handlers::calls::CallHandler;
use b2bua::sip::handlers::events::EventManager;
use b2bua::sip::handlers::media::{AudioProfile, MediaManager};
use b2bua::sip::sdp::{audio_port, rtp_target};
use std::sync::Arc;

fn config() -> Arc<AppConfig> {
    let mut env: Vec<(String, String)> = Vec::new();
    for name in [
        "SBC_SERVICE_SIP_TARGET",
        "SBC_SERVICE_PUBLIC_IP",
        "MEDIA_SERVICE_TARGET_GRPC_URL",
        "REGISTRAR_SERVICE_TARGET_GRPC_URL",
        "DIALPLAN_SERVICE_TARGET_GRPC_URL",
        "RABBITMQ_URL",
        "REDIS_URL",
        "B2BUA_SERVICE_CERT_PATH",
        "B2BUA_SERVICE_KEY_PATH",
        "GRPC_TLS_CA_PATH",
    ] {
        env.push((name.to_string(), format!("value of {}", name)));
    }
    Arc::new(AppConfig::load_from_env(&env).unwrap())
}

fn profile() -> AudioProfile {
    AudioProfile { ptime: 20, codecs: vec![] }
}

fn handler() -> CallHandler {
    CallHandler::new(config(), MediaManager::new(config(), profile()), EventManager::new())
}

#[test]
fn target_of_a_plain_offer() {
    let text = "v=0\r\nc=IN IP4 10.0.0.7 \r\nm=audio 40000 RTP/AVP 0\r\n";
    assert_eq!(rtp_target(text), Some("10.0.0.7:40000".to_string()));
    assert_eq!(audio_port(text), Some(40000));
}

#[test]
fn last_address_and_last_port_count() {
    let text = "c=IN IP4 1.1.1.1\nm=audio 10 x\nc=IN IP4 2.2.2.2\nm=audio 20 x\n";
    assert_eq!(rtp_target(text), Some("2.2.2.2:20".to_string()));
    assert_eq!(audio_port(text), Some(10));
}

#[test]
fn bad_port_counts_as_none() {
    let text = "c=IN IP4 1.1.1.1\nm=audio 10 x\nm=audio ten x\n";
    assert_eq!(rtp_target(text), None);
    assert_eq!(audio_port("m=audio ten x\nm=audio 10 x\n"), None);
    assert_eq!(rtp_target("c=IN IP4 1.1.1.1\nm=audio 70000 x\n"), None);
}

#[test]
fn audio_line_without_port_is_passed_over() {
    let text = "c=IN IP4 1.1.1.1\nm=audio 10 x\nm=audio \n";
    assert_eq!(rtp_target(text), Some("1.1.1.1:10".to_string()));
    assert_eq!(audio_port("m=audio \nm=audio 12\n"), Some(12));
}

#[test]
fn missing_parts_give_no_target() {
    assert_eq!(rtp_target(""), None);
    assert_eq!(rtp_target("c=IN IP4 1.1.1.1\n"), None);
    assert_eq!(rtp_target("m=audio 10 x\n"), None);
    assert_eq!(rtp_target("c=IN IP4  \nm=audio 10 x\n"), None);
    assert_eq!(rtp_target("c=IN IP4 1.1.1.1\nm=audio 0 x\n"), None);
    assert_eq!(rtp_target("c=IN IP6 ::1\nm=audio 10 x\n"), None);
    assert_eq!(rtp_target("c=IN IP4 1.1.1.1\nm=video 10 x\n"), None);
    assert_eq!(audio_port("m=video 10 x\n"), None);
}

#[test]
fn port_is_written_anew() {
    let text = "c=IN IP4 1.1.1.1\nm=audio +0010 x\n";
    assert_eq!(rtp_target(text), Some("1.1.1.1:10".to_string()));
}

#[test]
fn bodies_are_read_with_invalid_bytes_replaced() {
    let h = handler();
    let body = b"s=\xff\xfe\r\nc=IN IP4 9.8.7.6\r\nm=audio 4242 RTP/AVP 8\r\n";
    assert_eq!(h.extract_rtp_target_from_sdp(body), Some("9.8.7.6:4242".to_string()));
    let body = b"c=IN IP4 \xffx\r\nm=audio 1 a\r\n";
    assert_eq!(h.extract_rtp_target_from_sdp(body), Some("\u{fffd}x:1".to_string()));
    assert_eq!(h.extract_rtp_target_from_sdp(b""), None);
    let m = MediaManager::new(config(), profile());
    assert_eq!(m.extract_port_from_sdp(b"\xc3\nm=audio 4000 RTP/AVP 8\r\n"), Some(4000));
    assert_eq!(m.extract_port_from_sdp(b"m=audio"), None);
}

#[test]
fn described_audio_is_read_back() {
    for port in [1u16, 9, 10, 5004, 65535] {
        let text = format!("c=IN IP4 203.0.113.9\r\nm=audio {} RTP/AVP 0 8\r\n", port);
        assert_eq!(rtp_target(&text), Some(format!("203.0.113.9:{}", port)));
        assert_eq!(audio_port(&text), Some(port));
    }
}

#[test]
fn other_lines_change_nothing() {
    let text = "v=0\r\no=- 1 1 IN IP4 0.0.0.0\r\nc=IN IP4 1.2.3.4\r\nt=0 0\r\nm=audio 7 x\r\na=x\r\n";
    assert_eq!(rtp_target(text), rtp_target("c=IN IP4 1.2.3.4\r\nm=audio 7 x\r\n"));
}
