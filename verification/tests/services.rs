use b2bua::config::AppConfig;
use b2bua::grpc::client::{
    target_url, Connecting, InternalClients, Service, ServiceChannels, ServiceStep,
};
use b2bua::grpc::service::{MyB2BuaService, StatusCode};
use b2bua::health::handle_http_request;
use b2bua::rabbitmq::{
    connect_step, publish_step, termination_request, ConnectStep, PublishStep,
};
use b2bua::sip::engine::B2BuaEngine;
use b2bua::sip::handlers::command::CallCommand;
use b2bua::sip::handlers::events::{
    call_answered_event, call_ended_event, CallEvent, EventManager, Timestamp,
};
use b2bua::sip::handlers::media::{AudioProfile, CodecConfig, MediaManager};
use b2bua::sip::server::{datagram_received, is_keep_alive, DatagramOutcome};
use b2bua::startup::{startup_step, StartupEvent, StartupStep};
use std::sync::Arc;

fn config() -> Arc<AppConfig> {
    let mut env: Vec<(String, String)> = Vec::new();
    for (name, value) in [
        ("SBC_SERVICE_SIP_TARGET", "sbc:5060"),
        ("SBC_SERVICE_PUBLIC_IP", "198.51.100.1"),
        ("MEDIA_SERVICE_TARGET_GRPC_URL", "http://media:1"),
        ("REGISTRAR_SERVICE_TARGET_GRPC_URL", "https://registrar:2"),
        ("DIALPLAN_SERVICE_TARGET_GRPC_URL", "dialplan:3"),
        ("RABBITMQ_URL", "amqp://x"),
        ("REDIS_URL", "redis://x"),
        ("B2BUA_SERVICE_CERT_PATH", "c"),
        ("B2BUA_SERVICE_KEY_PATH", "k"),
        ("GRPC_TLS_CA_PATH", "a"),
    ] {
        env.push((name.to_string(), value.to_string()));
    }
    Arc::new(AppConfig::load_from_env(&env).unwrap())
}

fn profile() -> AudioProfile {
    let codec = |n: u8| CodecConfig {
        payload_type: n,
        name: format!("codec{}", n),
        rate: 8000,
        fmtp: if n == 101 { Some("0-16".to_string()) } else { None },
    };
    AudioProfile { ptime: 20, codecs: vec![codec(8), codec(0), codec(101)] }
}

#[test]
fn urls_are_made_secure() {
    assert_eq!(target_url("http://media:1"), "https://media:1");
    assert_eq!(target_url("https://media:1"), "https://media:1");
    assert_eq!(target_url("media:1"), "https://media:1");
    assert_eq!(target_url(""), "https://");
    assert_eq!(target_url("httpx"), "httpx");
    assert_eq!(target_url("http://a?b=http://c"), "https://a?b=https://c");
    assert_eq!(target_url("https://a?b=http://c"), "https://a?b=http://c");
    assert_eq!(target_url("HTTP://a"), "https://HTTP://a");
}

#[test]
fn services_are_called_under_their_names() {
    let clients = InternalClients::connect(&config());
    assert_eq!(clients.media.url, "https://media:1");
    assert_eq!(clients.media.server_name, "media-service");
    assert_eq!(clients.registrar.url, "https://registrar:2");
    assert_eq!(clients.registrar.server_name, "registrar-service");
    assert_eq!(clients.user.url, "https://");
    assert_eq!(clients.user.server_name, "user-service");
    assert_eq!(clients.dialplan.url, "https://dialplan:3");
    assert_eq!(clients.dialplan.server_name, "dialplan-service");
}

/// Connects where the service number `broken` cannot be reached. Each channel is the URL called.
fn connect_all(broken: usize) -> (Result<ServiceChannels<String>, String>, Vec<Service>) {
    let clients = InternalClients::connect(&config());
    let mut state = Connecting::start();
    let mut tried = vec![];
    loop {
        let service = state.service();
        let url = clients.endpoint(service).url.clone();
        let outcome = if tried.len() == broken { Err(format!("no {}", url)) } else { Ok(url) };
        tried.push(service);
        match state.answered(outcome) {
            ServiceStep::Continue(next) => state = next,
            ServiceStep::Connected(channels) => return (Ok(channels), tried),
            ServiceStep::Failed(error) => return (Err(error), tried),
        }
    }
}

#[test]
fn services_are_connected_in_order() {
    let order = [Service::Media, Service::Registrar, Service::User, Service::Dialplan];
    let urls = ["https://media:1", "https://registrar:2", "https://", "https://dialplan:3"];
    for broken in 0..4 {
        let (end, tried) = connect_all(broken);
        assert_eq!(end, Err(format!("no {}", urls[broken])));
        assert_eq!(tried, order[..broken + 1]);
    }
    let (end, tried) = connect_all(4);
    let channels = end.unwrap();
    assert_eq!(channels.media, urls[0]);
    assert_eq!(channels.registrar, urls[1]);
    assert_eq!(channels.user, urls[2]);
    assert_eq!(channels.dialplan, urls[3]);
    assert_eq!(tried, order);
}

#[test]
fn requested_call_id_is_taken() {
    let s = MyB2BuaService::new();
    assert_eq!(s.choose_call_id("abc".to_string()), "abc");
    assert_eq!(s.call_id_or(String::new(), "g".to_string()), "g");
    assert_eq!(s.call_id_or("r".to_string(), "g".to_string()), "r");
}

#[test]
fn missing_call_id_is_a_random_uuid() {
    let s = MyB2BuaService::new();
    for _ in 0..200 {
        let id = s.choose_call_id(String::new());
        assert_eq!(id.len(), 36);
        for (i, c) in id.chars().enumerate() {
            if i == 8 || i == 13 || i == 18 || i == 23 {
                assert_eq!(c, '-');
            } else {
                assert!(c.is_ascii_digit() || ('a'..='f').contains(&c));
            }
        }
        assert_eq!(id.chars().nth(14), Some('4'));
        assert!("89ab".contains(id.chars().nth(19).unwrap()));
        assert_ne!(id, s.choose_call_id(String::new()));
    }
}

#[test]
fn placing_a_call_is_replied_to() {
    let s = MyB2BuaService::new();
    let engine = B2BuaEngine::new(config(), profile());
    let (call, commands) = s.initiate_call(&engine, "c9".to_string(), "sip:a@x", "sip:b@y");
    assert_eq!(call.call_id, "c9");
    assert_eq!(call.from_uri, "sip:a@x");
    assert_eq!(call.to_uri, "sip:b@y");
    assert!(matches!(commands[0], CallCommand::AllocatePort(_)));
    let (call, _) = s.initiate_call(&engine, String::new(), "sip:a@x", "sip:b@y");
    assert_eq!(call.call_id.len(), 36);
    let reply = s.initiate_call_reply("c9".to_string(), Ok(())).unwrap();
    assert!(reply.success);
    assert_eq!(reply.new_call_id, "c9");
    let status = s.initiate_call_reply("c9".to_string(), Err("down".to_string())).unwrap_err();
    assert_eq!(status.code, StatusCode::Internal);
    assert_eq!(status.message, "down");
}

#[test]
fn transfer_is_not_implemented() {
    let status = MyB2BuaService::new().transfer_call();
    assert_eq!(status.code, StatusCode::Unimplemented);
    assert_eq!(status.message, "Transfer not implemented");
}

#[test]
fn health_is_reported() {
    let reply = handle_http_request();
    assert_eq!(reply.status, 200);
    assert_eq!(reply.content_type, "application/json");
    assert_eq!(reply.body, r#"{"status":"ok", "service": "b2bua-service"}"#);
}

#[test]
fn connection_is_given_up_after_ten_tries() {
    for attempt in 1..10 {
        assert_eq!(connect_step(attempt, false), ConnectStep::RetryAfterSecs(5));
        assert_eq!(connect_step(attempt, true), ConnectStep::Connected);
    }
    assert_eq!(connect_step(10, false), ConnectStep::GiveUp);
    assert_eq!(connect_step(10, true), ConnectStep::Connected);
}

#[test]
fn publication_is_given_up_after_three_tries() {
    assert_eq!(publish_step(0, true), PublishStep::Published);
    assert_eq!(publish_step(0, false), PublishStep::RetryAfterMillis(100));
    assert_eq!(publish_step(1, false), PublishStep::RetryAfterMillis(200));
    assert_eq!(publish_step(2, false), PublishStep::Failed);
    assert_eq!(publish_step(2, true), PublishStep::Published);
}

#[test]
fn termination_requests_name_their_call() {
    let id = |bytes: &[u8]| termination_request(bytes);
    assert_eq!(id(br#"{"callId":"c1"}"#), Some("c1".to_string()));
    assert_eq!(id(" { \"x\": 1, \"callId\" : \"a\u{e9}\\n\" } ".as_bytes()), Some("a\u{e9}\n".to_string()));
    assert_eq!(id(br#"{"callId":7}"#), None);
    assert_eq!(id(br#"{"callId":null}"#), None);
    assert_eq!(id(br#"{"callid":"c1"}"#), None);
    assert_eq!(id(br#"["callId"]"#), None);
    assert_eq!(id(br#""callId""#), None);
    assert_eq!(id(b"{"), None);
    assert_eq!(id(b""), None);
    assert_eq!(id(b"{\"callId\":\"\xff\"}"), None);
}

#[test]
fn trace_is_sent_where_metadata_can_carry_it() {
    let m = MediaManager::new(config(), profile());
    for (id, carried) in [
        ("c1", true),
        ("", true),
        ("a b\tc~", true),
        ("caf\u{e9}", true),
        ("a\nb", false),
        ("a\rb", false),
        ("\u{0}", false),
        ("x\u{7f}", false),
        ("\u{1f}", false),
    ] {
        let request = m.allocate_port(id);
        assert_eq!(request.call_id, id);
        assert_eq!(request.trace.is_some(), carried, "{:?}", id);
        if carried {
            assert_eq!(request.trace, Some(id.to_string()));
        }
        let release = m.release_port(5, id);
        assert_eq!(release.rtp_port, 5);
        assert_eq!(release.trace, request.trace);
    }
}

#[test]
fn description_has_public_address_and_low_port() {
    let m = MediaManager::new(config(), profile());
    let offer = m.generate_sdp(10050);
    assert_eq!(offer.ip, "198.51.100.1");
    assert_eq!(offer.port, 10050);
    assert_eq!(offer.ptime, 20);
    assert!(!offer.rtcp);
    assert_eq!(offer.codecs, profile().codecs);
    assert_eq!(m.generate_sdp(65536 + 7).port, 7);
    assert_eq!(m.generate_sdp(u32::MAX).port, 65535);
}

#[test]
fn keep_alives_are_passed_over() {
    assert!(is_keep_alive(b""));
    assert!(is_keep_alive(b"BYE"));
    assert!(is_keep_alive(b"\r\n\r\n"));
    assert!(is_keep_alive(b"\0\0\0\0\r\n"));
    assert!(!is_keep_alive(b"\r\n\r\nX"));
    assert!(!is_keep_alive(b"BYE "));
    assert!(!is_keep_alive(b"\n\n\n "));
}

#[test]
fn datagrams_are_dispatched_as_they_came() {
    let parse = |data: &[u8]| match String::from_utf8(data.to_vec()) {
        Ok(text) => Ok(text),
        Err(_) => Err(data.len()),
    };
    let mut buffer = b"INVITE sip:a@b".to_vec();
    let received = |buffer: &[u8], len: usize| datagram_received(buffer, len, "peer", parse);
    assert_eq!(
        received(&buffer, 14),
        DatagramOutcome::Dispatch { packet: "INVITE sip:a@b".to_string(), source: "peer" }
    );
    buffer[..4].copy_from_slice(b"BYE ");
    assert_eq!(
        received(&buffer, 4),
        DatagramOutcome::Dispatch { packet: "BYE ".to_string(), source: "peer" }
    );
    assert_eq!(received(&buffer, 3), DatagramOutcome::KeepAlive);
    assert_eq!(received(&buffer, 0), DatagramOutcome::KeepAlive);
    buffer[..4].copy_from_slice(b"\r\n\r\n");
    assert_eq!(received(&buffer, 4), DatagramOutcome::KeepAlive);
    buffer[5] = 0xff;
    assert_eq!(received(&buffer, 7), DatagramOutcome::Malformed(7));
}

#[test]
fn startup_waits_for_the_services() {
    assert_eq!(startup_step(StartupEvent::Shutdown), StartupStep::Stop);
    assert_eq!(startup_step(StartupEvent::Connected), StartupStep::Proceed);
    assert_eq!(startup_step(StartupEvent::Failed), StartupStep::RetryAfterSecs(5));
}

#[test]
fn events_are_traced_by_their_call() {
    let at = Timestamp { seconds: 7, nanos: 8 };
    match call_ended_event(at, "c1") {
        CallEvent::Ended(event) => {
            assert_eq!(event.trace_id, "c1");
            assert_eq!(event.call_id, "c1");
            assert_eq!(event.timestamp, Some(at));
            assert_eq!(event.event_type, "call.ended");
        }
        other => panic!("{:?}", other),
    }
    match call_answered_event(at, "c1") {
        CallEvent::Answered(event) => {
            assert_eq!(event.trace_id, "c1");
            assert_eq!(event.call_id, "c1");
            assert_eq!(event.timestamp, Some(at));
            assert_eq!(event.event_type, "call.answered");
        }
        other => panic!("{:?}", other),
    }
}

#[test]
fn events_bear_the_time_of_the_system() {
    let before = std::time::SystemTime::now();
    let manager = EventManager::new();
    let event = manager.publish_call_ended("c1");
    let after = std::time::SystemTime::now();
    let secs = |t: std::time::SystemTime| {
        t.duration_since(std::time::UNIX_EPOCH).unwrap().as_secs() as i64
    };
    match event {
        CallEvent::Ended(event) => {
            let at = event.timestamp.unwrap();
            assert!(secs(before) <= at.seconds && at.seconds <= secs(after));
            assert!(0 <= at.nanos && at.nanos < 1_000_000_000);
        }
        other => panic!("{:?}", other),
    }
}
