use b2bua::config::AppConfig;
use b2bua::sip::dialplan::{ActionType, DialplanAction, DialplanResolution};
use b2bua::sip::engine::{B2BuaEngine, PacketLookup, PacketOutcome};
use b2bua::sip::handlers::calls::{destination_number, AnsweringInvite, RoutingInvite};
use b2bua::sip::handlers::command::CallCommand;
use b2bua::sip::handlers::events::CallEvent;
use b2bua::sip::handlers::media::{
    AllocatePortRequest, AudioProfile, CodecConfig, ReleasePortRequest, SdpOffer,
};
use b2bua::sip::packet::{Header, HeaderName, Method, SipPacket};
use b2bua::sip::store::{CallSessionData, CallState, PersistSession};
use b2bua::sip::transaction::{SipTransaction, TransactionAction};
use std::sync::Arc;

fn config() -> Arc<AppConfig> {
    let mut env: Vec<(String, String)> = Vec::new();
    for name in [
        "SBC_SERVICE_SIP_TARGET",
        "MEDIA_SERVICE_TARGET_GRPC_URL",
        "REGISTRAR_SERVICE_TARGET_GRPC_URL",
        "DIALPLAN_SERVICE_TARGET_GRPC_URL",
        "RABBITMQ_URL",
        "REDIS_URL",
        "B2BUA_SERVICE_CERT_PATH",
        "B2BUA_SERVICE_KEY_PATH",
        "GRPC_TLS_CA_PATH",
    ] {
        env.push((name.to_string(), "x".to_string()));
    }
    env.push(("SBC_SERVICE_PUBLIC_IP".to_string(), "198.51.100.1".to_string()));
    env.push(("PROXY_SERVICE_SIP_TARGET".to_string(), "10.0.0.5:5060".to_string()));
    Arc::new(AppConfig::load_from_env(&env).unwrap())
}

fn profile() -> AudioProfile {
    let codec = |n: u8| CodecConfig {
        payload_type: n,
        name: format!("codec{}", n),
        rate: 8000,
        fmtp: if n == 101 { Some("0-16".to_string()) } else { None },
    };
    AudioProfile { ptime: 20, codecs: vec![codec(8), codec(0), codec(101)] }
}

fn prepare(tag_prefix: &str, port: u16) -> CallCommand {
    CallCommand::Prepare {
        tag_prefix: tag_prefix.to_string(),
        offer: SdpOffer {
            ip: "198.51.100.1".to_string(),
            port,
            ptime: 20,
            rtcp: false,
            codecs: profile().codecs,
        },
    }
}

fn engine() -> B2BuaEngine {
    B2BuaEngine::new(config(), profile())
}

fn header(name: HeaderName, value: &str) -> Header {
    Header::new(name, value.to_string())
}

const OFFER: &[u8] = b"v=0\r\nc=IN IP4 10.1.1.1\r\nm=audio 4000 RTP/AVP 8\r\n";

fn request(method: Method, call_id: &str) -> SipPacket {
    SipPacket {
        is_request: true,
        method,
        uri: "sip:1000@sentiric.local".to_string(),
        status_code: 0,
        reason: String::new(),
        headers: vec![
            header(HeaderName::Other("Via".to_string()), "SIP/2.0/UDP x"),
            header(HeaderName::From, "<sip:alice@x>;tag=a"),
            header(HeaderName::To, "<sip:1000@sentiric.local>"),
            header(HeaderName::CallId, call_id),
            header(HeaderName::CSeq, "1 INVITE"),
        ],
        body: OFFER.to_vec(),
    }
}

fn plain_ok(request: &SipPacket) -> SipPacket {
    SipPacket {
        is_request: false,
        method: request.method.clone(),
        uri: String::new(),
        status_code: 200,
        reason: "OK".to_string(),
        headers: request.headers.clone(),
        body: vec![],
    }
}

fn resolution(kind: Option<ActionType>) -> DialplanResolution {
    DialplanResolution { action: Some(DialplanAction { action_type: kind }), encoded: vec![9, 9] }
}

fn routed(engine: &mut B2BuaEngine, call_id: &str) -> (RoutingInvite, Vec<CallCommand>) {
    let outcome = engine.handle_packet(
        request(Method::Invite, call_id),
        "192.0.2.9".to_string(),
        Some(Some("1000".to_string())),
        TransactionAction::ForwardToApp,
    );
    match outcome {
        PacketOutcome::Invite(invite, commands) => (invite, commands),
        other => panic!("{:?}", other),
    }
}

fn with_port(
    engine: &mut B2BuaEngine,
    call_id: &str,
    kind: Option<ActionType>,
    port: u32,
) -> (AnsweringInvite, Vec<CallCommand>) {
    let (invite, _) = routed(engine, call_id);
    let (allocating, _) = engine.handler().dialplan_answered(invite, Some(resolution(kind)));
    let (answering, commands) = engine.handler().port_answered(allocating.unwrap(), Some(port));
    (answering.unwrap(), commands)
}

fn established(engine: &mut B2BuaEngine, call_id: &str, port: u32) -> SipPacket {
    let (answering, _) = with_port(engine, call_id, None, port);
    let plain = plain_ok(&request(Method::Invite, call_id));
    let (_, commands) =
        engine.answer_prepared(answering, plain, "b2bua-1".to_string(), b"sdp".to_vec());
    match commands.into_iter().last() {
        Some(CallCommand::SendAnswer(answer)) => answer,
        other => panic!("{:?}", other),
    }
}

fn act(engine: &mut B2BuaEngine, packet: SipPacket) -> PacketOutcome {
    engine.handle_packet(packet, "192.0.2.9".to_string(), None, TransactionAction::ForwardToApp)
}

fn play(uri: &str, port: u32, target: &str) -> CallCommand {
    CallCommand::PlayAudio {
        audio_uri: uri.to_string(),
        server_rtp_port: port,
        rtp_target_addr: target.to_string(),
    }
}

#[test]
fn invite_is_tried_and_routed() {
    let mut e = engine();
    let (invite, commands) = routed(&mut e, "c1");
    assert_eq!(invite.request, request(Method::Invite, "c1"));
    assert_eq!(invite.source_ip, "192.0.2.9");
    assert_eq!(
        commands,
        vec![
            CallCommand::SendTrying,
            CallCommand::ResolveDialplan {
                caller_contact_value: "<sip:alice@x>;tag=a".to_string(),
                destination_number: "1000".to_string(),
            },
        ]
    );
}

#[test]
fn destination_is_the_user_of_the_to_field() {
    assert_eq!(destination_number(Some(Some("7".to_string()))), "7");
    assert_eq!(destination_number(Some(None)), "");
    assert_eq!(destination_number(None), "unknown");
}

#[test]
fn dialplan_failure_is_a_routing_error() {
    let mut e = engine();
    let (invite, _) = routed(&mut e, "c1");
    let (next, commands) = e.handler().dialplan_answered(invite, None);
    assert_eq!(next, None);
    assert_eq!(
        commands,
        vec![CallCommand::SendError { code: 500, reason: "Routing Error".to_string() }]
    );
}

#[test]
fn media_failure_is_a_media_error() {
    let mut e = engine();
    let (invite, _) = routed(&mut e, "c1");
    let (allocating, commands) = e.handler().dialplan_answered(invite, Some(resolution(None)));
    assert_eq!(
        commands,
        vec![CallCommand::AllocatePort(AllocatePortRequest {
            call_id: "c1".to_string(),
            trace: Some("c1".to_string()),
        })]
    );
    let (next, commands) = e.handler().port_answered(allocating.unwrap(), None);
    assert_eq!(next, None);
    assert_eq!(
        commands,
        vec![CallCommand::SendError { code: 503, reason: "Media Error".to_string() }]
    );
    assert!(matches!(e.lookup("c1"), PacketLookup::Unknown { .. }));
}

#[test]
fn way_to_the_caller_is_opened() {
    let mut e = engine();
    let (answering, commands) = with_port(&mut e, "c1", Some(ActionType::Other(3)), 10050);
    assert_eq!(answering.rtp_port, 10050);
    assert_eq!(answering.rtp_target, "10.1.1.1:4000");
    assert_eq!(
        commands,
        vec![
            play("file://audio/tr/system/nat_warmer.wav", 10050, "10.1.1.1:4000"),
            prepare("b2bua", 10050),
        ]
    );
}

#[test]
fn every_treatment_is_left_to_others() {
    for kind in [
        None,
        Some(ActionType::Unspecified),
        Some(ActionType::EchoTest),
        Some(ActionType::Other(7)),
    ] {
        let mut e = engine();
        let (answering, commands) = with_port(&mut e, "c1", kind, 10050);
        assert_eq!(
            commands,
            vec![
                play("file://audio/tr/system/nat_warmer.wav", 10050, "10.1.1.1:4000"),
                prepare("b2bua", 10050),
            ]
        );
        assert_eq!(answering.resolution, resolution(kind));
    }
}

#[test]
fn unnamed_treatment_is_unspecified() {
    let kind = |action_type| DialplanAction { action_type }.kind();
    assert_eq!(kind(None), ActionType::Unspecified);
    assert_eq!(kind(Some(ActionType::EchoTest)), ActionType::EchoTest);
    assert_eq!(kind(Some(ActionType::Other(7))), ActionType::Other(7));
}

#[test]
fn sender_is_the_fallback_target_and_hears_nothing() {
    for text in ["no sdp", "", "c=IN IP4 1.1.1.1\nm=audio 0 x\n", "m=audio 10 x\n"] {
        let mut e = engine();
        let (invite, _) = routed(&mut e, "c1");
        let (allocating, _) = e.handler().dialplan_answered(invite, Some(resolution(None)));
        let (next, commands) = e.handler().port_answered_for(allocating.unwrap(), text, Some(4));
        assert_eq!(
            commands,
            vec![prepare("b2bua", 4)]
        );
        let next = next.unwrap();
        assert_eq!(next.rtp_target, "192.0.2.9:30000");
        let plain = plain_ok(&request(Method::Invite, "c1"));
        let (answered, _) = e.answer_prepared(next, plain, "t".to_string(), vec![]);
        match &e.handler().answer_sent(answered, true)[0] {
            CallCommand::PublishStarted { caller_rtp, server_port, .. } => {
                assert_eq!(caller_rtp, "192.0.2.9:30000");
                assert_eq!(*server_port, 4);
            }
            other => panic!("{:?}", other),
        }
    }
}

#[test]
fn answer_bears_tag_contact_and_description() {
    let mut e = engine();
    let (answering, _) = with_port(&mut e, "c1", None, 10050);
    let plain = plain_ok(&request(Method::Invite, "c1"));
    let (answered, commands) =
        e.answer_prepared(answering, plain.clone(), "b2bua-1".to_string(), b"sdp".to_vec());
    let mut answer = plain;
    answer.headers[2] = header(HeaderName::To, "<sip:1000@sentiric.local>;tag=b2bua-1");
    answer.headers.push(header(HeaderName::Contact, "<sip:b2bua@198.51.100.1:13084>"));
    answer.headers.push(header(HeaderName::ContentType, "application/sdp"));
    answer.body = b"sdp".to_vec();
    let data = CallSessionData {
        call_id: "c1".to_string(),
        state: CallState::Established,
        from_uri: "<sip:alice@x>;tag=a".to_string(),
        to_uri: "<sip:1000@sentiric.local>".to_string(),
        rtp_port: 10050,
        local_tag: "b2bua-1".to_string(),
    };
    assert_eq!(
        commands,
        vec![
            CallCommand::Persist(PersistSession {
                key: "b2bua:call:c1".to_string(),
                data,
                ttl_secs: 86400,
            }),
            CallCommand::SendAnswer(answer.clone()),
        ]
    );
    assert_eq!(
        e.lookup("c1"),
        PacketLookup::Known(Some(SipTransaction {
            request: request(Method::Invite, "c1"),
            response: Some(answer),
        }))
    );
    let started = e.handler().answer_sent(answered, true);
    assert_eq!(
        started,
        vec![CallCommand::PublishStarted {
            call_id: "c1".to_string(),
            server_port: 10050,
            caller_rtp: "10.1.1.1:4000".to_string(),
            from: "<sip:alice@x>;tag=a".to_string(),
            to: "<sip:1000@sentiric.local>".to_string(),
            dialplan: resolution(None),
        }]
    );
    let event = e.handler().event_for(started.into_iter().next().unwrap()).unwrap();
    assert_eq!(event.routing_key(), "call.started");
    match event {
        CallEvent::Started(event) => {
            assert_eq!(event.event_type, "call.started");
            assert_eq!(event.trace_id, "c1");
            assert_eq!(event.call_id, "c1");
            assert_eq!(event.from_uri, "<sip:alice@x>;tag=a");
            assert_eq!(event.to_uri, "<sip:1000@sentiric.local>");
            assert_eq!(event.dialplan_resolution, Some(resolution(None)));
            let media = event.media_info.unwrap();
            assert_eq!(media.caller_rtp_addr, "10.1.1.1:4000");
            assert_eq!(media.server_rtp_port, 10050);
            let at = event.timestamp.unwrap();
            assert!(at.seconds > 0 && at.nanos >= 0 && at.nanos < 1_000_000_000);
        }
        other => panic!("{:?}", other),
    }
}

#[test]
fn tag_that_is_there_is_kept() {
    let mut e = engine();
    let mut plain = plain_ok(&request(Method::Invite, "c1"));
    plain.headers[2] = header(HeaderName::To, "<sip:b@y>;tag=old");
    plain.headers.push(header(HeaderName::To, "<sip:second@y>"));
    let answer = e.handler().build_answer(plain.clone(), "new", vec![]);
    assert_eq!(answer.headers[..6], plain.headers[..6]);
    let mut bare = plain;
    bare.headers.clear();
    let answer = e.handler().build_answer(bare, "new", vec![]);
    assert_eq!(answer.headers.len(), 2);
    assert!(matches!(act(&mut e, answer), PacketOutcome::Response { status_code: 200, .. }));
}

#[test]
fn unsent_answer_is_not_published() {
    let mut e = engine();
    let (answering, _) = with_port(&mut e, "c1", None, 10050);
    let plain = plain_ok(&request(Method::Invite, "c1"));
    let (answered, _) = e.answer_prepared(answering, plain, "t".to_string(), vec![]);
    assert_eq!(e.handler().answer_sent(answered, false), vec![]);
    assert!(matches!(e.lookup("c1"), PacketLookup::Known(Some(_))));
}

#[test]
fn ack_establishes_and_is_published() {
    let mut e = engine();
    established(&mut e, "c1", 10050);
    let before = e.lookup("c1");
    match act(&mut e, request(Method::Ack, "c1")) {
        PacketOutcome::Commands(commands) => {
            assert_eq!(commands.len(), 2);
            match &commands[0] {
                CallCommand::Persist(write) => {
                    assert_eq!(write.key, "b2bua:call:c1");
                    assert_eq!(write.data.state, CallState::Established);
                    assert_eq!(write.data.rtp_port, 10050);
                }
                other => panic!("{:?}", other),
            }
            assert_eq!(commands[1], CallCommand::PublishAnswered { call_id: "c1".to_string() });
        }
        other => panic!("{:?}", other),
    }
    assert_eq!(e.lookup("c1"), before);
    assert_eq!(act(&mut e, request(Method::Ack, "c2")), PacketOutcome::Commands(vec![]));
}

fn ending(call_id: &str, port: u32) -> Vec<CallCommand> {
    vec![
        CallCommand::SendAccepted,
        CallCommand::Forget { key: format!("b2bua:call:{}", call_id) },
        CallCommand::ReleasePort(ReleasePortRequest {
            rtp_port: port,
            trace: Some(call_id.to_string()),
        }),
        CallCommand::PublishEnded { call_id: call_id.to_string() },
    ]
}

#[test]
fn bye_gives_the_port_back_once() {
    let mut e = engine();
    established(&mut e, "c1", 10050);
    established(&mut e, "c2", 10052);
    act(&mut e, request(Method::Ack, "c1"));
    let bye = request(Method::Bye, "c1");
    assert_eq!(act(&mut e, bye.clone()), PacketOutcome::Commands(ending("c1", 10050)));
    assert_eq!(
        act(&mut e, bye),
        PacketOutcome::Commands(vec![
            CallCommand::SendAccepted,
            CallCommand::Forget { key: "b2bua:call:c1".to_string() },
        ])
    );
    assert!(matches!(e.lookup("c2"), PacketLookup::Known(Some(_))));
}

#[test]
fn cancel_closes_a_call_too() {
    let mut e = engine();
    established(&mut e, "c1", 10050);
    let outcome = act(&mut e, request(Method::Cancel, "c1"));
    assert_eq!(outcome, PacketOutcome::Commands(ending("c1", 10050)));
    assert_eq!(act(&mut e, request(Method::Cancel, "c1")), PacketOutcome::Ignored);
}

#[test]
fn cancel_of_an_unknown_call_is_passed_over() {
    let mut e = engine();
    established(&mut e, "c1", 10050);
    let before = e.lookup("c1");
    assert_eq!(act(&mut e, request(Method::Cancel, "c2")), PacketOutcome::Ignored);
    assert_eq!(e.lookup("c1"), before);
}

#[test]
fn platform_can_end_a_call() {
    let mut e = engine();
    established(&mut e, "c1", 10050);
    assert_eq!(e.terminate_session("c1"), ending("c1", 10050)[1..]);
    assert_eq!(
        e.terminate_session("c1"),
        vec![CallCommand::Forget { key: "b2bua:call:c1".to_string() }]
    );
}

#[test]
fn restored_call_can_be_ended() {
    let mut e = engine();
    assert_eq!(
        e.lookup("c1"),
        PacketLookup::Unknown { call_id: "c1".to_string(), key: "b2bua:call:c1".to_string() }
    );
    assert!(matches!(e.restore("c1", None), PacketLookup::Unknown { .. }));
    let data = CallSessionData {
        call_id: "c1".to_string(),
        state: CallState::Established,
        from_uri: String::new(),
        to_uri: String::new(),
        rtp_port: 77,
        local_tag: String::new(),
    };
    assert_eq!(e.restore("c1", Some(data)), PacketLookup::Known(None));
    let outcome = act(&mut e, request(Method::Bye, "c1"));
    assert_eq!(outcome, PacketOutcome::Commands(ending("c1", 77)));
}

#[test]
fn repeated_invite_is_answered_again() {
    let mut e = engine();
    let answer = established(&mut e, "c1", 10050);
    let verdict = TransactionAction::RetransmitResponse(answer.clone());
    let outcome =
        e.handle_packet(request(Method::Invite, "c1"), "192.0.2.9".to_string(), None, verdict);
    assert_eq!(outcome, PacketOutcome::Retransmit(answer));
    let outcome = e.handle_packet(
        request(Method::Bye, "c1"),
        "192.0.2.9".to_string(),
        None,
        TransactionAction::Ignore,
    );
    assert_eq!(outcome, PacketOutcome::Ignored);
    assert!(matches!(e.lookup("c1"), PacketLookup::Known(Some(_))));
}

#[test]
fn verdict_does_not_count_for_an_unknown_call() {
    let mut e = engine();
    let outcome = e.handle_packet(
        request(Method::Invite, "c1"),
        "192.0.2.9".to_string(),
        None,
        TransactionAction::Ignore,
    );
    assert!(matches!(outcome, PacketOutcome::Invite(_, _)));
}

#[test]
fn other_requests_and_responses_are_passed_over() {
    let mut e = engine();
    let options = request(Method::Other("OPTIONS".to_string()), "c1");
    assert_eq!(act(&mut e, options), PacketOutcome::Ignored);
    let mut ringing = plain_ok(&request(Method::Invite, "c1"));
    ringing.status_code = 180;
    assert_eq!(
        act(&mut e, ringing),
        PacketOutcome::Response { call_id: "c1".to_string(), status_code: 180 }
    );
}

#[test]
fn placed_call_is_sent_to_the_proxy() {
    let mut e = engine();
    let (call, commands) = e.send_outbound_invite("c1", "sip:me@x", "sip:you@y");
    assert_eq!(
        commands,
        vec![CallCommand::AllocatePort(AllocatePortRequest {
            call_id: "c1".to_string(),
            trace: Some("c1".to_string()),
        })]
    );
    assert_eq!(call.tag_prefix, "sentiric-out");
    let (ready, commands) = e.handler().outbound_port_answered(call, Some(10060));
    assert_eq!(
        commands,
        vec![prepare("sentiric-out", 10060)]
    );
    let commands = e.outbound_prepared(ready.unwrap(), "t1".to_string(), b"sdp".to_vec());
    let data = CallSessionData {
        call_id: "c1".to_string(),
        state: CallState::Trying,
        from_uri: "sip:me@x".to_string(),
        to_uri: "sip:you@y".to_string(),
        rtp_port: 10060,
        local_tag: "t1".to_string(),
    };
    assert_eq!(
        commands,
        vec![
            CallCommand::Persist(PersistSession {
                key: "b2bua:call:c1".to_string(),
                data,
                ttl_secs: 86400,
            }),
            CallCommand::SendInvite {
                uri: "sip:you@y".to_string(),
                headers: vec![
                    header(HeaderName::From, "<sip:me@x>;tag=t1"),
                    header(HeaderName::To, "<sip:you@y>"),
                    header(HeaderName::CallId, "c1"),
                    header(HeaderName::CSeq, "1 INVITE"),
                    header(HeaderName::ContentType, "application/sdp"),
                ],
                body: b"sdp".to_vec(),
                proxy_addr: "10.0.0.5:5060".to_string(),
            },
        ]
    );
    assert_eq!(e.lookup("c1"), PacketLookup::Known(None));
    assert_eq!(e.terminate_session("c1"), ending("c1", 10060)[1..]);
}

#[test]
fn placed_call_without_port_is_given_up() {
    let e = engine();
    let (call, _) = e.handler().process_outbound_invite("c1", "sip:me@x", "sip:you@y");
    assert_eq!(call.tag_prefix, "b2bua-out");
    let (ready, commands) = e.handler().outbound_port_answered(call, None);
    assert_eq!(ready, None);
    assert_eq!(commands, vec![]);
    assert!(matches!(e.lookup("c1"), PacketLookup::Unknown { .. }));
}

#[test]
fn call_stays_up_until_it_is_ended() {
    let mut e = engine();
    established(&mut e, "c1", 10050);
    let before = e.lookup("c1");
    act(&mut e, request(Method::Ack, "c1"));
    act(&mut e, request(Method::Bye, "c2"));
    act(&mut e, request(Method::Other("INFO".to_string()), "c1"));
    routed(&mut e, "c1");
    e.terminate_session("c3");
    e.restore("c1", None);
    established(&mut e, "c4", 10060);
    assert_eq!(e.lookup("c1"), before);
    assert_eq!(e.terminate_session("c1"), ending("c1", 10050)[1..]);
}

#[test]
fn placed_call_is_closed_by_its_peer() {
    let mut e = engine();
    let (call, _) = e.send_outbound_invite("c1", "sip:me@x", "sip:you@y");
    let (ready, _) = e.handler().outbound_port_answered(call, Some(10060));
    e.outbound_prepared(ready.unwrap(), "t1".to_string(), b"sdp".to_vec());
    let outcome = act(&mut e, request(Method::Bye, "c1"));
    assert_eq!(outcome, PacketOutcome::Commands(ending("c1", 10060)));
}

#[test]
fn missing_headers_count_as_empty() {
    let mut e = engine();
    let mut bare = request(Method::Invite, "c1");
    bare.headers.clear();
    match act(&mut e, bare) {
        PacketOutcome::Invite(_, commands) => assert_eq!(
            commands[1],
            CallCommand::ResolveDialplan {
                caller_contact_value: String::new(),
                destination_number: "unknown".to_string(),
            }
        ),
        other => panic!("{:?}", other),
    }
}

#[test]
fn first_header_of_a_name_counts() {
    let mut packet = request(Method::Invite, "c1");
    packet.headers.push(header(HeaderName::CallId, "c2"));
    packet.headers.push(header(HeaderName::Other("Via".to_string()), "second"));
    assert_eq!(packet.call_id(), "c1");
    let via = HeaderName::Other("Via".to_string());
    assert_eq!(packet.get_header_value(&via), Some(&"SIP/2.0/UDP x".to_string()));
    assert_eq!(packet.get_header_value(&HeaderName::Contact), None);
    assert_eq!(packet.header_or_default(&HeaderName::Contact), "");
}

#[test]
fn only_publications_make_events() {
    let e = engine();
    assert_eq!(e.handler().event_for(CallCommand::SendTrying), None);
    let answered = CallCommand::PublishAnswered { call_id: "c1".to_string() };
    let answered = e.handler().event_for(answered).unwrap();
    assert_eq!(answered.routing_key(), "call.answered");
    let ended = CallCommand::PublishEnded { call_id: "c1".to_string() };
    let ended = e.handler().event_for(ended).unwrap();
    assert_eq!(ended.routing_key(), "call.ended");
    match ended {
        CallEvent::Ended(event) => {
            assert_eq!(event.event_type, "call.ended");
            assert_eq!(event.trace_id, "c1");
            assert_eq!(event.call_id, "c1");
            assert_eq!(event.reason, "normal_clearing");
        }
        other => panic!("{:?}", other),
    }
}
