//! The life of a call: how an INVITE is answered, how a call is placed, confirmed and ended.
use crate::config::{AppConfig, AppConfigView};
use crate::sip::dialplan::{
    resolution_view, DialplanAction, DialplanResolution, DialplanResolutionView,
};
use crate::sip::handlers::command::{commands_view, CallCommand, CallCommandView};
use crate::sip::handlers::events::{
    call_answered, call_ended, call_started, event_view, CallEvent, CallEventView, EventManager,
    Timestamp,
};
use crate::sip::handlers::media::{
    allocation_of, offer_of, release_of, AudioProfileView, MediaManager,
};
use crate::sip::packet::{
    headers_view, Header, HeaderName, HeaderNameView, HeaderView, SipPacket, SipPacketView,
};
use crate::sip::sdp::{decode_lossy, rtp_target, rtp_target_of, utf8_lossy};
use crate::sip::store::{
    in_state, persist_of, session_at, storage_key_of, with_state, CallSession, CallSessionData,
    CallSessionDataView, CallSessionView, CallState, CallStore, RtpEndpointView,
};
use crate::sip::transaction::{SipTransaction, SipTransactionView};
use crate::text::{chars_of, contains, format_socket, has_pattern, socket_text};
use std::sync::Arc;
use vstd::prelude::*;

verus! {

/// The port to which audio goes where the caller's description gives no target.
pub const FALLBACK_RTP_PORT: u32 = 30000;

/// What is played to open the way to the caller through address translation.
pub const NAT_WARMER_URI: &'static str = "file://audio/tr/system/nat_warmer.wav";

/// The user that is called where the To field is no SIP URI: that of
/// `sip:unknown@sentiric.local`.
pub const UNKNOWN_USER: &'static str = "unknown";

/// An INVITE that waits for the dialplan.
#[derive(Debug, PartialEq, Eq)]
pub struct RoutingInvite {
    pub request: SipPacket,
    pub source_ip: String,
}

/// An INVITE that waits for a port.
#[derive(Debug, PartialEq, Eq)]
pub struct AllocatingInvite {
    pub request: SipPacket,
    pub source_ip: String,
    pub action: DialplanAction,
    pub resolution: DialplanResolution,
}

/// An INVITE that waits for the material of its answer.
#[derive(Debug, PartialEq, Eq)]
pub struct AnsweringInvite {
    pub request: SipPacket,
    pub resolution: DialplanResolution,
    pub rtp_port: u32,
    pub rtp_target: String,
}

/// An INVITE whose answer is being sent.
#[derive(Debug, PartialEq, Eq)]
pub struct AnsweredInvite {
    pub call_id: String,
    pub from: String,
    pub to: String,
    pub resolution: DialplanResolution,
    pub rtp_port: u32,
    pub rtp_target: String,
}

pub struct RoutingInviteView {
    pub request: SipPacketView,
    pub source_ip: Seq<char>,
}

pub struct AllocatingInviteView {
    pub request: SipPacketView,
    pub source_ip: Seq<char>,
    pub action: DialplanAction,
    pub resolution: DialplanResolutionView,
}

pub struct AnsweringInviteView {
    pub request: SipPacketView,
    pub resolution: DialplanResolutionView,
    pub rtp_port: u32,
    pub rtp_target: Seq<char>,
}

pub struct AnsweredInviteView {
    pub call_id: Seq<char>,
    pub from: Seq<char>,
    pub to: Seq<char>,
    pub resolution: DialplanResolutionView,
    pub rtp_port: u32,
    pub rtp_target: Seq<char>,
}

impl View for RoutingInvite {
    type V = RoutingInviteView;

    open spec fn view(&self) -> RoutingInviteView {
        RoutingInviteView { request: self.request@, source_ip: self.source_ip@ }
    }
}

impl View for AllocatingInvite {
    type V = AllocatingInviteView;

    open spec fn view(&self) -> AllocatingInviteView {
        AllocatingInviteView {
            request: self.request@,
            source_ip: self.source_ip@,
            action: self.action,
            resolution: self.resolution@,
        }
    }
}

impl View for AnsweringInvite {
    type V = AnsweringInviteView;

    open spec fn view(&self) -> AnsweringInviteView {
        AnsweringInviteView {
            request: self.request@,
            resolution: self.resolution@,
            rtp_port: self.rtp_port,
            rtp_target: self.rtp_target@,
        }
    }
}

impl View for AnsweredInvite {
    type V = AnsweredInviteView;

    open spec fn view(&self) -> AnsweredInviteView {
        AnsweredInviteView {
            call_id: self.call_id@,
            from: self.from@,
            to: self.to@,
            resolution: self.resolution@,
            rtp_port: self.rtp_port,
            rtp_target: self.rtp_target@,
        }
    }
}

pub open spec fn user_view(user: Option<Option<String>>) -> Option<Option<Seq<char>>> {
    match user {
        Some(Some(name)) => Some(Some(name@)),
        Some(None) => Some(None),
        None => None,
    }
}

/// The number that is called, where `to_user` is the user part of the To field's URI, if the field
/// is a URI and has one.
pub open spec fn destination_of(to_user: Option<Option<Seq<char>>>) -> Seq<char> {
    match to_user {
        Some(Some(user)) => user,
        Some(None) => Seq::empty(),
        None => UNKNOWN_USER@,
    }
}

/// Chooses the number that is called.
pub fn destination_number(to_user: Option<Option<String>>) -> (r: String)
    ensures
        r@ == destination_of(user_view(to_user)),
{
    match to_user {
        Some(Some(user)) => user,
        Some(None) => String::new(),
        None => UNKNOWN_USER.to_owned(),
    }
}

/// The commands on which a new INVITE opens.
pub open spec fn opening_commands(
    request: SipPacketView,
    to_user: Option<Option<Seq<char>>>,
) -> Seq<CallCommandView> {
    seq![
        CallCommandView::SendTrying,
        CallCommandView::ResolveDialplan {
            caller_contact_value: request.from_uri(),
            destination_number: destination_of(to_user),
        },
    ]
}

/// The commands once the dialplan has answered or failed.
pub open spec fn routing_commands(
    request: SipPacketView,
    answer: Option<DialplanResolutionView>,
) -> Seq<CallCommandView> {
    match answer {
        Some(_) => seq![CallCommandView::AllocatePort(allocation_of(request.call_id()))],
        None => seq![CallCommandView::SendError { code: 500, reason: "Routing Error"@ }],
    }
}

/// The INVITE that the dialplan has decided on.
pub open spec fn routed_invite(
    invite: RoutingInviteView,
    action: DialplanAction,
    resolution: DialplanResolutionView,
) -> AllocatingInviteView {
    AllocatingInviteView {
        request: invite.request,
        source_ip: invite.source_ip,
        action,
        resolution,
    }
}

/// Where the audio of a call goes: where its description says, or else to the sender of the
/// INVITE.
pub open spec fn audio_target(body_text: Seq<char>, source_ip: Seq<char>) -> Seq<char> {
    match rtp_target_of(body_text) {
        Some(target) => target,
        None => socket_text(source_ip, FALLBACK_RTP_PORT as nat),
    }
}

/// The command to play something from a port to an address.
pub open spec fn play(uri: Seq<char>, port: u32, target: Seq<char>) -> CallCommandView {
    CallCommandView::PlayAudio { audio_uri: uri, server_rtp_port: port, rtp_target_addr: target }
}

/// The commands that set the media of a call up: the way to the caller is opened, where the caller's
/// description says where that is. How the dialplan treats the call makes no difference.
pub open spec fn media_commands(body_text: Seq<char>, port: u32) -> Seq<CallCommandView> {
    match rtp_target_of(body_text) {
        Some(target) => seq![play(NAT_WARMER_URI@, port, target)],
        None => seq![],
    }
}

/// The commands once the media service has rented a port or failed, where `body_text` is the
/// caller's description.
pub open spec fn allocation_commands(
    config: AppConfigView,
    profile: AudioProfileView,
    body_text: Seq<char>,
    port: Option<u32>,
) -> Seq<CallCommandView> {
    match port {
        Some(p) => media_commands(body_text, p).push(
            CallCommandView::Prepare { tag_prefix: "b2bua"@, offer: offer_of(config, profile, p) },
        ),
        None => seq![CallCommandView::SendError { code: 503, reason: "Media Error"@ }],
    }
}

/// The INVITE that has a port.
pub open spec fn with_port(
    invite: AllocatingInviteView,
    body_text: Seq<char>,
    port: u32,
) -> AnsweringInviteView {
    AnsweringInviteView {
        request: invite.request,
        resolution: invite.resolution,
        rtp_port: port,
        rtp_target: audio_target(body_text, invite.source_ip),
    }
}

/// The value of a To field with a tag: its own, or else the given one.
pub open spec fn tagged(value: Seq<char>, tag: Seq<char>) -> Seq<char> {
    if has_pattern(value, ";tag="@) {
        value
    } else {
        value + ";tag="@ + tag
    }
}

/// The header fields with a tag in the first To field.
pub open spec fn with_tag(headers: Seq<HeaderView>, tag: Seq<char>) -> Seq<HeaderView>
    decreases headers.len(),
{
    if headers.len() == 0 {
        headers
    } else if headers.first().name == HeaderNameView::To {
        headers.update(
            0,
            HeaderView { name: HeaderNameView::To, value: tagged(headers.first().value, tag) },
        )
    } else {
        seq![headers.first()] + with_tag(headers.drop_first(), tag)
    }
}

/// The address at which the service can be reached within a dialog.
pub open spec fn contact_of(config: AppConfigView) -> Seq<char> {
    "<sip:b2bua@"@ + socket_text(config.public_ip, config.public_sip_port as nat) + ">"@
}

/// The answer to an INVITE, made of a plain 200 OK.
pub open spec fn answer_of(
    config: AppConfigView,
    plain: SipPacketView,
    tag: Seq<char>,
    sdp: Seq<u8>,
) -> SipPacketView {
    SipPacketView {
        headers: with_tag(plain.headers, tag).push(
            HeaderView { name: HeaderNameView::Contact, value: contact_of(config) },
        ).push(HeaderView { name: HeaderNameView::ContentType, value: "application/sdp"@ }),
        body: sdp,
        ..plain
    }
}

/// The session of an answered INVITE.
pub open spec fn answered_session(
    invite: AnsweringInviteView,
    answer: SipPacketView,
    tag: Seq<char>,
) -> CallSessionView {
    CallSessionView {
        data: CallSessionDataView {
            call_id: invite.request.call_id(),
            state: CallState::Established,
            from_uri: invite.request.from_uri(),
            to_uri: invite.request.to_uri(),
            rtp_port: invite.rtp_port,
            local_tag: tag,
        },
        endpoint: RtpEndpointView { remote: None },
        active_transaction: Some(
            SipTransactionView { request: invite.request, response: Some(answer) },
        ),
    }
}

/// The commands that answer an INVITE.
pub open spec fn answer_commands(
    session: CallSessionView,
    answer: SipPacketView,
) -> Seq<CallCommandView> {
    seq![
        CallCommandView::Persist(persist_of(session.data.call_id, session.data)),
        CallCommandView::SendAnswer(answer),
    ]
}

/// The INVITE whose answer is being sent.
pub open spec fn answered_invite(invite: AnsweringInviteView) -> AnsweredInviteView {
    AnsweredInviteView {
        call_id: invite.request.call_id(),
        from: invite.request.from_uri(),
        to: invite.request.to_uri(),
        resolution: invite.resolution,
        rtp_port: invite.rtp_port,
        rtp_target: invite.rtp_target,
    }
}

/// The commands once the answer has been sent, or could not be.
pub open spec fn sent_commands(invite: AnsweredInviteView, sent: bool) -> Seq<CallCommandView> {
    if sent {
        seq![
            CallCommandView::PublishStarted {
                call_id: invite.call_id,
                server_port: invite.rtp_port,
                caller_rtp: invite.rtp_target,
                from: invite.from,
                to: invite.to,
                dialplan: invite.resolution,
            },
        ]
    } else {
        seq![]
    }
}

/// The commands that end a call.
pub open spec fn ending_commands(
    sessions: Map<Seq<char>, CallSessionView>,
    call_id: Seq<char>,
) -> Seq<CallCommandView> {
    let forget = CallCommandView::Forget { key: storage_key_of(call_id) };
    match session_at(sessions, call_id) {
        Some(session) => seq![
            forget,
            CallCommandView::ReleasePort(release_of(session.data.rtp_port, call_id)),
            CallCommandView::PublishEnded { call_id },
        ],
        None => seq![forget],
    }
}

/// The commands on an ACK.
pub open spec fn ack_commands(
    sessions: Map<Seq<char>, CallSessionView>,
    call_id: Seq<char>,
) -> Seq<CallCommandView> {
    match session_at(sessions, call_id) {
        Some(session) => seq![
            CallCommandView::Persist(
                persist_of(call_id, in_state(session, CallState::Established).data),
            ),
            CallCommandView::PublishAnswered { call_id },
        ],
        None => seq![],
    }
}

/// The event that a command asks to publish, if it asks for one.
pub open spec fn event_of(command: CallCommandView, at: Timestamp) -> Option<CallEventView> {
    match command {
        CallCommandView::PublishStarted {
            call_id,
            server_port,
            caller_rtp,
            from,
            to,
            dialplan,
        } => Some(
            call_started(at, call_id, server_port, caller_rtp, from, to, Some(dialplan)),
        ),
        CallCommandView::PublishAnswered { call_id } => Some(call_answered(at, call_id)),
        CallCommandView::PublishEnded { call_id } => Some(call_ended(at, call_id)),
        _ => None,
    }
}

/// A call that the platform places.
#[derive(Debug, PartialEq, Eq)]
pub struct OutboundCall {
    pub call_id: String,
    pub from_uri: String,
    pub to_uri: String,
    pub tag_prefix: String,
}

/// A call that the platform places, with its port.
#[derive(Debug, PartialEq, Eq)]
pub struct OutboundReady {
    pub call_id: String,
    pub from_uri: String,
    pub to_uri: String,
    pub rtp_port: u32,
}

pub struct OutboundCallView {
    pub call_id: Seq<char>,
    pub from_uri: Seq<char>,
    pub to_uri: Seq<char>,
    pub tag_prefix: Seq<char>,
}

pub struct OutboundReadyView {
    pub call_id: Seq<char>,
    pub from_uri: Seq<char>,
    pub to_uri: Seq<char>,
    pub rtp_port: u32,
}

impl View for OutboundCall {
    type V = OutboundCallView;

    open spec fn view(&self) -> OutboundCallView {
        OutboundCallView {
            call_id: self.call_id@,
            from_uri: self.from_uri@,
            to_uri: self.to_uri@,
            tag_prefix: self.tag_prefix@,
        }
    }
}

impl View for OutboundReady {
    type V = OutboundReadyView;

    open spec fn view(&self) -> OutboundReadyView {
        OutboundReadyView {
            call_id: self.call_id@,
            from_uri: self.from_uri@,
            to_uri: self.to_uri@,
            rtp_port: self.rtp_port,
        }
    }
}

/// A call that is to be placed.
pub open spec fn placed_call(
    call_id: Seq<char>,
    from_uri: Seq<char>,
    to_uri: Seq<char>,
    tag_prefix: Seq<char>,
) -> OutboundCallView {
    OutboundCallView { call_id, from_uri, to_uri, tag_prefix }
}

/// The commands on which a call that is placed opens.
pub open spec fn placing_commands(call_id: Seq<char>) -> Seq<CallCommandView> {
    seq![CallCommandView::AllocatePort(allocation_of(call_id))]
}

/// A call that is placed, with its port.
pub open spec fn placed_with_port(call: OutboundCallView, port: u32) -> OutboundReadyView {
    OutboundReadyView {
        call_id: call.call_id,
        from_uri: call.from_uri,
        to_uri: call.to_uri,
        rtp_port: port,
    }
}

/// The commands once the media service has rented a port for a call that is placed, or failed.
pub open spec fn preparing_commands(
    config: AppConfigView,
    profile: AudioProfileView,
    call: OutboundCallView,
    port: Option<u32>,
) -> Seq<CallCommandView> {
    match port {
        Some(p) => seq![
            CallCommandView::Prepare {
                tag_prefix: call.tag_prefix,
                offer: offer_of(config, profile, p),
            },
        ],
        None => seq![],
    }
}

/// `<uri>`.
pub open spec fn bracketed(uri: Seq<char>) -> Seq<char> {
    "<"@ + uri + ">"@
}

/// The header fields of the INVITE that places a call.
pub open spec fn outbound_headers(call: OutboundReadyView, tag: Seq<char>) -> Seq<HeaderView> {
    seq![
        HeaderView {
            name: HeaderNameView::From,
            value: bracketed(call.from_uri) + ";tag="@ + tag,
        },
        HeaderView { name: HeaderNameView::To, value: bracketed(call.to_uri) },
        HeaderView { name: HeaderNameView::CallId, value: call.call_id },
        HeaderView { name: HeaderNameView::CSeq, value: "1 INVITE"@ },
        HeaderView { name: HeaderNameView::ContentType, value: "application/sdp"@ },
    ]
}

/// The session of a call that is being placed.
pub open spec fn outbound_session(call: OutboundReadyView, tag: Seq<char>) -> CallSessionView {
    CallSessionView {
        data: CallSessionDataView {
            call_id: call.call_id,
            state: CallState::Trying,
            from_uri: call.from_uri,
            to_uri: call.to_uri,
            rtp_port: call.rtp_port,
            local_tag: tag,
        },
        endpoint: RtpEndpointView { remote: None },
        active_transaction: None,
    }
}

/// The commands that place a call.
pub open spec fn outbound_commands(
    config: AppConfigView,
    call: OutboundReadyView,
    tag: Seq<char>,
    sdp: Seq<u8>,
) -> Seq<CallCommandView> {
    let session = outbound_session(call, tag);
    seq![
        CallCommandView::Persist(persist_of(session.data.call_id, session.data)),
        CallCommandView::SendInvite {
            uri: call.to_uri,
            headers: outbound_headers(call, tag),
            body: sdp,
            proxy_addr: config.proxy_sip_addr,
        },
    ]
}

fn bracket(uri: &str) -> (r: String)
    ensures
        r@ == bracketed(uri@),
{
    let mut r = "<".to_owned();
    r.append(uri);
    r.append(">");
    r
}

fn play_audio(uri: &str, port: u32, target: &str) -> (r: CallCommand)
    ensures
        r@ == play(uri@, port, target@),
{
    CallCommand::PlayAudio {
        audio_uri: uri.to_owned(),
        server_rtp_port: port,
        rtp_target_addr: target.to_owned(),
    }
}

fn error_reply(code: u16, reason: &str) -> (r: CallCommand)
    ensures
        r@ == (CallCommandView::SendError { code, reason: reason@ }),
{
    CallCommand::SendError { code, reason: reason.to_owned() }
}

fn one(command: CallCommand) -> (r: Vec<CallCommand>)
    ensures
        commands_view(r@) == seq![command@],
{
    let mut r: Vec<CallCommand> = Vec::new();
    r.push(command);
    assert(commands_view(r@) == seq![command@]);
    r
}

fn also(commands: &mut Vec<CallCommand>, command: CallCommand)
    ensures
        commands_view(final(commands)@) == commands_view(old(commands)@).push(command@),
{
    commands.push(command);
    assert(commands_view(commands@) == commands_view(old(commands)@).push(command@));
}

/// Puts a tag into the first To field.
fn tag_first_to(headers: &mut Vec<Header>, tag: &str)
    ensures
        headers_view(final(headers)@) == with_tag(headers_view(old(headers)@), tag@),
{
    let ghost all = headers_view(headers@);
    let mut i: usize = 0;
    assert(all.skip(0) == all);
    assert(all.take(0) + with_tag(all.skip(0), tag@) == with_tag(all, tag@));
    while i < headers.len()
        invariant
            i <= headers.len(),
            all == headers_view(old(headers)@),
            headers@ == old(headers)@,
            with_tag(all, tag@) == all.take(i as int) + with_tag(all.skip(i as int), tag@),
        decreases headers.len() - i,
    {
        let ghost rest = all.skip(i as int);
        assert(rest.first() == headers@[i as int]@);
        if headers[i].name.is(&HeaderName::To) {
            let mut value = headers[i].value.clone();
            if !contains(&chars_of(value.as_str()), ";tag=") {
                value.append(";tag=");
                value.append(tag);
            }
            let ghost new_header = HeaderView { name: HeaderNameView::To, value: value@ };
            assert(value@ == tagged(rest.first().value, tag@));
            headers[i] = Header { name: HeaderName::To, value };
            assert(headers_view(headers@) == all.update(i as int, new_header));
            assert(all.update(i as int, new_header) == all.take(i as int) + rest.update(
                0,
                new_header,
            ));
            return;
        }
        assert(rest.drop_first() == all.skip(i + 1));
        assert(all.take(i + 1) == all.take(i as int).push(rest.first()));
        i = i + 1;
        assert(all.take(i - 1) + (seq![rest.first()] + with_tag(all.skip(i as int), tag@))
            == all.take(i as int) + with_tag(all.skip(i as int), tag@));
    }
    assert(all.skip(i as int) == Seq::<HeaderView>::empty());
    assert(all.take(i as int) + Seq::<HeaderView>::empty() == all);
}

/// Handles calls. It decides; sending, asking and storing are left to whoever obeys its commands.
pub struct CallHandler {
    config: Arc<AppConfig>,
    media_mgr: MediaManager,
    event_mgr: EventManager,
}

impl CallHandler {
    /// The configuration.
    pub closed spec fn config(&self) -> AppConfig {
        *self.config
    }

    /// What rents and describes ports.
    pub closed spec fn media(&self) -> MediaManager {
        self.media_mgr
    }

    /// A handler that rents ports and makes events by the two managers.
    pub fn new(config: Arc<AppConfig>, media_mgr: MediaManager, event_mgr: EventManager) -> (r:
        Self)
        ensures
            r.config() == *config,
            r.media() == media_mgr,
    {
        CallHandler { config, media_mgr, event_mgr }
    }

    /// The RTP target that a session description gives.
    pub fn extract_rtp_target_from_sdp(&self, body: &[u8]) -> (r: Option<String>)
        ensures
            match r {
                Some(target) => rtp_target_of(utf8_lossy(body@)) == Some(target@),
                None => rtp_target_of(utf8_lossy(body@)) is None,
            },
            vstd::utf8::valid_utf8(body@) ==> utf8_lossy(body@) == vstd::utf8::decode_utf8(body@),
    {
        let text = decode_lossy(body);
        rtp_target(text.as_str())
    }

    /// Takes up an INVITE: it is acknowledged as under way, and the dialplan is asked. `to_user`
    /// is the user part of the To field's URI, `None` where the field is no URI.
    pub fn process_invite(
        &self,
        request: SipPacket,
        source_ip: String,
        to_user: Option<Option<String>>,
    ) -> (r: (RoutingInvite, Vec<CallCommand>))
        ensures
            r.0@ == (RoutingInviteView { request: request@, source_ip: source_ip@ }),
            commands_view(r.1@) == opening_commands(request@, user_view(to_user)),
    {
        let from = request.header_or_default(&HeaderName::From);
        let mut commands = one(CallCommand::SendTrying);
        let resolve = CallCommand::ResolveDialplan {
            caller_contact_value: from,
            destination_number: destination_number(to_user),
        };
        also(&mut commands, resolve);
        assert(commands_view(commands@) == opening_commands(request@, user_view(to_user)));
        (RoutingInvite { request, source_ip }, commands)
    }

    /// Goes on once the dialplan has answered (`Some`) or could not be asked (`None`).
    pub fn dialplan_answered(
        &self,
        invite: RoutingInvite,
        answer: Option<DialplanResolution>,
    ) -> (r: (Option<AllocatingInvite>, Vec<CallCommand>))
        requires
            answer matches Some(resolution) ==> resolution.action is Some,
        ensures
            match (r.0, answer) {
                (Some(next), Some(resolution)) => next@ == routed_invite(
                    invite@,
                    resolution.action->0,
                    resolution@,
                ),
                (None, None) => true,
                _ => false,
            },
            commands_view(r.1@) == routing_commands(invite@.request, resolution_view(answer)),
    {
        match answer {
            Some(resolution) => {
                let call_id = invite.request.call_id();
                let commands = one(
                    CallCommand::AllocatePort(self.media_mgr.allocate_port(call_id.as_str())),
                );
                let action = resolution.action.unwrap();
                let next = AllocatingInvite {
                    request: invite.request,
                    source_ip: invite.source_ip,
                    action,
                    resolution,
                };
                (Some(next), commands)
            },
            None => (None, one(error_reply(500, "Routing Error"))),
        }
    }

    /// Goes on once the media service has rented a port (`Some`) or not (`None`).
    pub fn port_answered(&self, invite: AllocatingInvite, port: Option<u32>) -> (r: (
        Option<AnsweringInvite>,
        Vec<CallCommand>,
    ))
        ensures
            match (r.0, port) {
                (Some(next), Some(p)) => next@ == with_port(
                    invite@,
                    utf8_lossy(invite@.request.body),
                    p,
                ),
                (None, None) => true,
                _ => false,
            },
            commands_view(r.1@) == allocation_commands(
                self.media().config()@,
                self.media().profile()@,
                utf8_lossy(invite@.request.body),
                port,
            ),
    {
        let text = decode_lossy(invite.request.body.as_slice());
        self.port_answered_for(invite, text.as_str(), port)
    }

    /// `port_answered`, given the text of the caller's description.
    pub fn port_answered_for(
        &self,
        invite: AllocatingInvite,
        body_text: &str,
        port: Option<u32>,
    ) -> (r: (Option<AnsweringInvite>, Vec<CallCommand>))
        ensures
            match (r.0, port) {
                (Some(next), Some(p)) => next@ == with_port(invite@, body_text@, p),
                (None, None) => true,
                _ => false,
            },
            commands_view(r.1@) == allocation_commands(
                self.media().config()@,
                self.media().profile()@,
                body_text@,
                port,
            ),
    {
        match port {
            Some(p) => {
                let mut commands: Vec<CallCommand> = Vec::new();
                assert(commands_view(commands@) == Seq::<CallCommandView>::empty());
                let target = match rtp_target(body_text) {
                    Some(described) => {
                        also(&mut commands, play_audio(NAT_WARMER_URI, p, described.as_str()));
                        described
                    },
                    None => format_socket(invite.source_ip.as_str(), FALLBACK_RTP_PORT),
                };
                assert(commands_view(commands@) == media_commands(body_text@, p));
                let prepare = CallCommand::Prepare {
                    tag_prefix: "b2bua".to_owned(),
                    offer: self.media_mgr.generate_sdp(p),
                };
                also(&mut commands, prepare);
                assert(commands_view(commands@) == allocation_commands(
                    self.media().config()@,
                    self.media().profile()@,
                    body_text@,
                    port,
                ));
                let next = AnsweringInvite {
                    request: invite.request,
                    resolution: invite.resolution,
                    rtp_port: p,
                    rtp_target: target,
                };
                (Some(next), commands)
            },
            None => (None, one(error_reply(503, "Media Error"))),
        }
    }

    /// The answer to an INVITE, made of a plain 200 OK.
    pub fn build_answer(&self, plain: SipPacket, local_tag: &str, sdp_body: Vec<u8>) -> (r:
        SipPacket)
        ensures
            r@ == answer_of(self.config()@, plain@, local_tag@, sdp_body@),
    {
        let mut answer = plain;
        let mut headers = answer.headers;
        tag_first_to(&mut headers, local_tag);
        let mut contact = "<sip:b2bua@".to_owned();
        contact.append(
            format_socket(
                self.config.public_ip.as_str(),
                self.config.public_sip_port as u32,
            ).as_str(),
        );
        contact.append(">");
        headers.push(Header::new(HeaderName::Contact, contact));
        headers.push(Header::new(HeaderName::ContentType, "application/sdp".to_owned()));
        answer.headers = headers;
        answer.body = sdp_body;
        assert(answer@ == answer_of(self.config()@, plain@, local_tag@, sdp_body@));
        answer
    }

    /// Answers an INVITE and takes the call up. `plain` is a plain 200 OK to the request; the tag
    /// and the description are those that were made for it on `Prepare`.
    pub fn answer_prepared(
        &self,
        calls: &mut CallStore,
        invite: AnsweringInvite,
        plain: SipPacket,
        local_tag: String,
        sdp_body: Vec<u8>,
    ) -> (r: (AnsweredInvite, Vec<CallCommand>))
        ensures
            ({
                let answer = answer_of(self.config()@, plain@, local_tag@, sdp_body@);
                let session = answered_session(invite@, answer, local_tag@);
                &&& final(calls)@ == old(calls)@.insert(session.data.call_id, session)
                &&& commands_view(r.1@) == answer_commands(session, answer)
            }),
            r.0@ == answered_invite(invite@),
    {
        let answer = self.build_answer(plain, local_tag.as_str(), sdp_body);
        let call_id = invite.request.call_id();
        let from = invite.request.header_or_default(&HeaderName::From);
        let to = invite.request.header_or_default(&HeaderName::To);
        let data = CallSessionData {
            call_id: call_id.clone(),
            state: CallState::Established,
            from_uri: from.clone(),
            to_uri: to.clone(),
            rtp_port: invite.rtp_port,
            local_tag,
        };
        let mut tx = SipTransaction::new(invite.request);
        tx.update_with_response(answer.clone());
        let mut session = CallSession::new(data);
        session.active_transaction = Some(tx);
        assert(session@ == answered_session(invite@, answer@, local_tag@));
        let ghost kept = session@;
        let mut commands = one(CallCommand::Persist(calls.insert(session)));
        let ghost sent = answer@;
        also(&mut commands, CallCommand::SendAnswer(answer));
        assert(commands_view(commands@) == answer_commands(kept, sent));
        (
            AnsweredInvite {
                call_id,
                from,
                to,
                resolution: invite.resolution,
                rtp_port: invite.rtp_port,
                rtp_target: invite.rtp_target,
            },
            commands,
        )
    }

    /// Goes on once the answer has been sent, or could not be.
    pub fn answer_sent(&self, invite: AnsweredInvite, sent: bool) -> (r: Vec<CallCommand>)
        ensures
            commands_view(r@) == sent_commands(invite@, sent),
    {
        if sent {
            one(
                CallCommand::PublishStarted {
                    call_id: invite.call_id,
                    server_port: invite.rtp_port,
                    caller_rtp: invite.rtp_target,
                    from: invite.from,
                    to: invite.to,
                    dialplan: invite.resolution,
                },
            )
        } else {
            let none: Vec<CallCommand> = Vec::new();
            assert(commands_view(none@) == sent_commands(invite@, sent));
            none
        }
    }

    /// Ends a call: it is forgotten, its port is given back, and its end is published. A call that
    /// is not known is only deleted from the persistent store.
    pub fn end_call(&self, calls: &mut CallStore, call_id: &str) -> (r: Vec<CallCommand>)
        ensures
            final(calls)@ == old(calls)@.remove(call_id@),
            commands_view(r@) == ending_commands(old(calls)@, call_id@),
    {
        let (key, removed) = calls.remove(call_id);
        let mut commands = one(CallCommand::Forget { key });
        match removed {
            Some(session) => {
                let release = self.media_mgr.release_port(session.data.rtp_port, call_id);
                also(&mut commands, CallCommand::ReleasePort(release));
                let ended = CallCommand::PublishEnded { call_id: call_id.to_owned() };
                also(&mut commands, ended);
            },
            None => {},
        }
        assert(commands_view(commands@) == ending_commands(old(calls)@, call_id@));
        commands
    }

    /// Accepts a request that closes a call, and ends the call.
    pub fn process_bye(&self, calls: &mut CallStore, request: &SipPacket) -> (r: Vec<CallCommand>)
        ensures
            final(calls)@ == old(calls)@.remove(request@.call_id()),
            commands_view(r@) == seq![CallCommandView::SendAccepted] + ending_commands(
                old(calls)@,
                request@.call_id(),
            ),
    {
        let call_id = request.call_id();
        let mut commands = one(CallCommand::SendAccepted);
        let mut rest = self.end_call(calls, call_id.as_str());
        let ghost first = commands@;
        let ghost second = rest@;
        commands.append(&mut rest);
        assert(commands_view(commands@) == commands_view(first) + commands_view(second));
        commands
    }

    /// Takes note that the caller has confirmed the answer.
    pub fn process_ack(&self, calls: &mut CallStore, call_id: &str) -> (r: Vec<CallCommand>)
        ensures
            final(calls)@ == with_state(old(calls)@, call_id@, CallState::Established),
            commands_view(r@) == ack_commands(old(calls)@, call_id@),
    {
        match calls.update_state(call_id, CallState::Established) {
            Some(write) => {
                let mut commands = one(CallCommand::Persist(write));
                let answered = CallCommand::PublishAnswered { call_id: call_id.to_owned() };
                also(&mut commands, answered);
                assert(commands_view(commands@) == ack_commands(old(calls)@, call_id@));
                commands
            },
            None => {
                let none: Vec<CallCommand> = Vec::new();
                assert(commands_view(none@) == ack_commands(old(calls)@, call_id@));
                none
            },
        }
    }

    /// Places a call: a port is asked for. `tag_prefix` begins the tag of this end.
    pub fn place_call(
        &self,
        call_id: &str,
        from_uri: &str,
        to_uri: &str,
        tag_prefix: &str,
    ) -> (r: (OutboundCall, Vec<CallCommand>))
        ensures
            r.0@ == placed_call(call_id@, from_uri@, to_uri@, tag_prefix@),
            commands_view(r.1@) == placing_commands(call_id@),
    {
        let call = OutboundCall {
            call_id: call_id.to_owned(),
            from_uri: from_uri.to_owned(),
            to_uri: to_uri.to_owned(),
            tag_prefix: tag_prefix.to_owned(),
        };
        (call, one(CallCommand::AllocatePort(self.media_mgr.allocate_port(call_id))))
    }

    /// Places a call on behalf of this handler.
    pub fn process_outbound_invite(&self, call_id: &str, from_uri: &str, to_uri: &str) -> (r: (
        OutboundCall,
        Vec<CallCommand>,
    ))
        ensures
            r.0@ == placed_call(call_id@, from_uri@, to_uri@, "b2bua-out"@),
            commands_view(r.1@) == placing_commands(call_id@),
    {
        self.place_call(call_id, from_uri, to_uri, "b2bua-out")
    }

    /// Goes on once the media service has rented a port for a call that is placed. Without a port
    /// the call is given up.
    pub fn outbound_port_answered(&self, call: OutboundCall, port: Option<u32>) -> (r: (
        Option<OutboundReady>,
        Vec<CallCommand>,
    ))
        ensures
            match (r.0, port) {
                (Some(next), Some(p)) => next@ == placed_with_port(call@, p),
                (None, None) => true,
                _ => false,
            },
            commands_view(r.1@) == preparing_commands(
                self.media().config()@,
                self.media().profile()@,
                call@,
                port,
            ),
    {
        match port {
            Some(p) => {
                let prepare = CallCommand::Prepare {
                    tag_prefix: call.tag_prefix,
                    offer: self.media_mgr.generate_sdp(p),
                };
                let commands = one(prepare);
                let next = OutboundReady {
                    call_id: call.call_id,
                    from_uri: call.from_uri,
                    to_uri: call.to_uri,
                    rtp_port: p,
                };
                (Some(next), commands)
            },
            None => {
                let none: Vec<CallCommand> = Vec::new();
                assert(commands_view(none@) == Seq::<CallCommandView>::empty());
                (None, none)
            },
        }
    }

    /// Takes a placed call up and sends its INVITE, with the tag and the description that were
    /// made for it.
    pub fn outbound_prepared(
        &self,
        calls: &mut CallStore,
        call: OutboundReady,
        local_tag: String,
        sdp_body: Vec<u8>,
    ) -> (r: Vec<CallCommand>)
        ensures
            ({
                let session = outbound_session(call@, local_tag@);
                final(calls)@ == old(calls)@.insert(session.data.call_id, session)
            }),
            commands_view(r@) == outbound_commands(
                self.config()@,
                call@,
                local_tag@,
                sdp_body@,
            ),
    {
        let mut from = bracket(call.from_uri.as_str());
        from.append(";tag=");
        from.append(local_tag.as_str());
        let mut headers: Vec<Header> = Vec::new();
        headers.push(Header::new(HeaderName::From, from));
        headers.push(Header::new(HeaderName::To, bracket(call.to_uri.as_str())));
        headers.push(Header::new(HeaderName::CallId, call.call_id.clone()));
        headers.push(Header::new(HeaderName::CSeq, "1 INVITE".to_owned()));
        headers.push(Header::new(HeaderName::ContentType, "application/sdp".to_owned()));
        assert(headers_view(headers@) == outbound_headers(call@, local_tag@));
        let uri = call.to_uri.clone();
        let data = CallSessionData {
            call_id: call.call_id,
            state: CallState::Trying,
            from_uri: call.from_uri,
            to_uri: call.to_uri,
            rtp_port: call.rtp_port,
            local_tag,
        };
        let session = CallSession::new(data);
        assert(session@ == outbound_session(call@, local_tag@));
        let mut commands = one(CallCommand::Persist(calls.insert(session)));
        let send = CallCommand::SendInvite {
            uri,
            headers,
            body: sdp_body,
            proxy_addr: self.config.proxy_sip_addr.clone(),
        };
        also(&mut commands, send);
        assert(commands_view(commands@) == outbound_commands(
            self.config()@,
            call@,
            local_tag@,
            sdp_body@,
        ));
        commands
    }

    /// The event that a command asks to publish, of the moment in which it is made.
    pub fn event_for(&self, command: CallCommand) -> (r: Option<CallEvent>)
        ensures
            exists|at: Timestamp| at.normal() && event_view(r) == #[trigger] event_of(command@, at),
    {
        let ghost epoch = Timestamp { seconds: 0, nanos: 0 };
        match command {
            CallCommand::PublishStarted {
                call_id,
                server_port,
                caller_rtp,
                from,
                to,
                dialplan,
            } => {
                let given = Some(dialplan);
                let event = self.event_mgr.publish_call_started(
                    call_id.as_str(),
                    server_port,
                    caller_rtp.as_str(),
                    from.as_str(),
                    to.as_str(),
                    given,
                );
                proof {
                    let at = choose|at: Timestamp|
                        at.normal() && event@ == #[trigger] call_started(
                            at,
                            call_id@,
                            server_port,
                            caller_rtp@,
                            from@,
                            to@,
                            resolution_view(given),
                        );
                    assert(event_of(command@, at) == Some(event@));
                }
                Some(event)
            },
            CallCommand::PublishAnswered { call_id } => {
                let event = self.event_mgr.publish_call_answered(call_id.as_str());
                proof {
                    let at = choose|at: Timestamp|
                        at.normal() && event@ == #[trigger] call_answered(at, call_id@);
                    assert(event_of(command@, at) == Some(event@));
                }
                Some(event)
            },
            CallCommand::PublishEnded { call_id } => {
                let event = self.event_mgr.publish_call_ended(call_id.as_str());
                proof {
                    let at = choose|at: Timestamp|
                        at.normal() && event@ == #[trigger] call_ended(at, call_id@);
                    assert(event_of(command@, at) == Some(event@));
                }
                Some(event)
            },
            _ => {
                assert(event_of(command@, epoch) is None);
                None
            },
        }
    }
}

/// The stages of a call are seen whole.
pub proof fn stages_are_seen_whole(
    routing: RoutingInvite,
    allocating: AllocatingInvite,
    answering: AnsweringInvite,
    answered: AnsweredInvite,
    call: OutboundCall,
    ready: OutboundReady,
    user: String,
)
    ensures
        routing@.request == routing.request@,
        routing@.source_ip == routing.source_ip@,
        allocating@.action == allocating.action,
        allocating@.request == allocating.request@,
        allocating@.source_ip == allocating.source_ip@,
        allocating@.resolution == allocating.resolution@,
        answering@.rtp_port == answering.rtp_port,
        answering@.request == answering.request@,
        answering@.resolution == answering.resolution@,
        answering@.rtp_target == answering.rtp_target@,
        answered@.rtp_port == answered.rtp_port,
        answered@.call_id == answered.call_id@,
        answered@.from == answered.from@,
        answered@.to == answered.to@,
        answered@.resolution == answered.resolution@,
        answered@.rtp_target == answered.rtp_target@,
        call@.call_id == call.call_id@,
        call@.from_uri == call.from_uri@,
        call@.to_uri == call.to_uri@,
        call@.tag_prefix == call.tag_prefix@,
        ready@.rtp_port == ready.rtp_port,
        ready@.call_id == ready.call_id@,
        ready@.from_uri == ready.from_uri@,
        ready@.to_uri == ready.to_uri@,
        user_view(Some(Some(user))) == Some(Some(user@)),
        user_view(Some(None)) == Some(None::<Seq<char>>),
        user_view(None) is None,
{
}

} // verus!
