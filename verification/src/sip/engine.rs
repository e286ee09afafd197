//! The engine: which packets are acted on, and how.
use crate::config::AppConfig;
use crate::sip::handlers::calls::{
    ack_commands, answer_commands, answer_of, answered_invite, answered_session, ending_commands,
    opening_commands, outbound_commands, outbound_session, placed_call, placing_commands, user_view,
    AnsweredInvite, AnsweringInvite, CallHandler, OutboundCall, OutboundReady, RoutingInvite,
    RoutingInviteView,
};
use crate::sip::handlers::command::{commands_view, CallCommand, CallCommandView};
use crate::sip::handlers::events::EventManager;
use crate::sip::handlers::media::{AudioProfile, MediaManager};
use crate::sip::packet::{Method, MethodView, SipPacket, SipPacketView};
use crate::sip::store::{
    data_view, no_sessions, session_at, storage_key, storage_key_of, transaction_view, with_restored,
    with_state, CallSessionData, CallSessionView, CallState, CallStore,
};
use crate::sip::transaction::{
    SipTransaction, SipTransactionView, TransactionAction, TransactionActionView,
};
use std::sync::Arc;
use vstd::prelude::*;

verus! {

/// What the engine knows of the call of a packet.
#[derive(Debug, PartialEq, Eq)]
pub enum PacketLookup {
    /// The call is known, and this is its transaction.
    Known(Option<SipTransaction>),
    /// The call is not in memory: the persistent store may have it under this key.
    Unknown { call_id: String, key: String },
}

pub enum PacketLookupView {
    Known(Option<SipTransactionView>),
    Unknown { call_id: Seq<char>, key: Seq<char> },
}

impl View for PacketLookup {
    type V = PacketLookupView;

    open spec fn view(&self) -> PacketLookupView {
        match self {
            PacketLookup::Known(tx) => PacketLookupView::Known(transaction_view(*tx)),
            PacketLookup::Unknown { call_id, key } => PacketLookupView::Unknown {
                call_id: call_id@,
                key: key@,
            },
        }
    }
}

/// What is known of a call, where `sessions` are the calls in memory.
pub open spec fn lookup_of(
    sessions: Map<Seq<char>, CallSessionView>,
    call_id: Seq<char>,
) -> PacketLookupView {
    match session_at(sessions, call_id) {
        Some(session) => PacketLookupView::Known(session.active_transaction),
        None => PacketLookupView::Unknown { call_id, key: storage_key_of(call_id) },
    }
}

/// What comes of a packet.
#[derive(Debug, PartialEq, Eq)]
pub enum PacketOutcome {
    /// This response is to be sent again.
    Retransmit(SipPacket),
    /// Nothing is to be done.
    Ignored,
    /// A new INVITE, and the commands on which it opens.
    Invite(RoutingInvite, Vec<CallCommand>),
    /// The commands on a request within a call.
    Commands(Vec<CallCommand>),
    /// A response to a request of this service.
    Response { call_id: String, status_code: u16 },
}

pub enum PacketOutcomeView {
    Retransmit(SipPacketView),
    Ignored,
    Invite(RoutingInviteView, Seq<CallCommandView>),
    Commands(Seq<CallCommandView>),
    Response { call_id: Seq<char>, status_code: u16 },
}

impl View for PacketOutcome {
    type V = PacketOutcomeView;

    open spec fn view(&self) -> PacketOutcomeView {
        match self {
            PacketOutcome::Retransmit(p) => PacketOutcomeView::Retransmit(p@),
            PacketOutcome::Ignored => PacketOutcomeView::Ignored,
            PacketOutcome::Invite(invite, commands) => PacketOutcomeView::Invite(
                invite@,
                commands_view(commands@),
            ),
            PacketOutcome::Commands(commands) => PacketOutcomeView::Commands(
                commands_view(commands@),
            ),
            PacketOutcome::Response { call_id, status_code } => PacketOutcomeView::Response {
                call_id: call_id@,
                status_code: *status_code,
            },
        }
    }
}

/// What the transaction check comes to: its verdict counts only for a call that is known.
pub open spec fn effective_verdict(
    sessions: Map<Seq<char>, CallSessionView>,
    packet: SipPacketView,
    verdict: TransactionActionView,
) -> TransactionActionView {
    if sessions.contains_key(packet.call_id()) {
        verdict
    } else {
        TransactionActionView::ForwardToApp
    }
}

/// What comes of a packet that is new.
pub open spec fn routed(
    sessions: Map<Seq<char>, CallSessionView>,
    packet: SipPacketView,
    source_ip: Seq<char>,
    to_user: Option<Option<Seq<char>>>,
) -> PacketOutcomeView {
    if packet.is_request {
        match packet.method {
            MethodView::Invite => PacketOutcomeView::Invite(
                RoutingInviteView { request: packet, source_ip },
                opening_commands(packet, to_user),
            ),
            MethodView::Ack => PacketOutcomeView::Commands(
                ack_commands(sessions, packet.call_id()),
            ),
            MethodView::Bye => PacketOutcomeView::Commands(
                seq![CallCommandView::SendAccepted] + ending_commands(sessions, packet.call_id()),
            ),
            MethodView::Cancel => if sessions.contains_key(packet.call_id()) {
                PacketOutcomeView::Commands(
                    seq![CallCommandView::SendAccepted] + ending_commands(
                        sessions,
                        packet.call_id(),
                    ),
                )
            } else {
                PacketOutcomeView::Ignored
            },
            MethodView::Other(_) => PacketOutcomeView::Ignored,
        }
    } else {
        PacketOutcomeView::Response {
            call_id: packet.call_id(),
            status_code: packet.status_code,
        }
    }
}

/// What comes of a packet.
pub open spec fn outcome_of(
    sessions: Map<Seq<char>, CallSessionView>,
    packet: SipPacketView,
    source_ip: Seq<char>,
    to_user: Option<Option<Seq<char>>>,
    verdict: TransactionActionView,
) -> PacketOutcomeView {
    match effective_verdict(sessions, packet, verdict) {
        TransactionActionView::RetransmitResponse(cached) => PacketOutcomeView::Retransmit(cached),
        TransactionActionView::Ignore => PacketOutcomeView::Ignored,
        TransactionActionView::ForwardToApp => routed(sessions, packet, source_ip, to_user),
    }
}

/// The calls after a packet.
pub open spec fn sessions_after(
    sessions: Map<Seq<char>, CallSessionView>,
    packet: SipPacketView,
    verdict: TransactionActionView,
) -> Map<Seq<char>, CallSessionView> {
    if effective_verdict(sessions, packet, verdict) is ForwardToApp && packet.is_request {
        match packet.method {
            MethodView::Ack => with_state(sessions, packet.call_id(), CallState::Established),
            MethodView::Bye => sessions.remove(packet.call_id()),
            MethodView::Cancel => sessions.remove(packet.call_id()),
            _ => sessions,
        }
    } else {
        sessions
    }
}

/// The engine: the calls that are up, and the logic that moves them.
pub struct B2BuaEngine {
    calls: CallStore,
    call_handler: CallHandler,
}

impl B2BuaEngine {
    /// The calls that are up.
    pub closed spec fn sessions(&self) -> Map<Seq<char>, CallSessionView> {
        self.calls@
    }

    /// The logic of the calls.
    pub closed spec fn handler_spec(&self) -> CallHandler {
        self.call_handler
    }

    /// The configuration.
    pub open spec fn config(&self) -> AppConfig {
        self.handler_spec().config()
    }

    /// The codecs that are offered.
    pub open spec fn profile(&self) -> AudioProfile {
        self.handler_spec().media().profile()
    }

    /// Ports are described by the configuration of the engine.
    pub open spec fn well_formed(&self) -> bool {
        self.handler_spec().media().config() == self.config()
    }

    /// An engine that knows no call, and offers the codecs of the profile.
    pub fn new(config: Arc<AppConfig>, profile: AudioProfile) -> (r: Self)
        ensures
            r.sessions() == no_sessions(),
            r.config() == *config,
            r.profile() == profile,
            r.well_formed(),
    {
        let media_mgr = MediaManager::new(config.clone(), profile);
        let event_mgr = EventManager::new();
        let call_handler = CallHandler::new(config, media_mgr, event_mgr);
        B2BuaEngine { calls: CallStore::new(), call_handler }
    }

    /// The logic of the calls.
    pub fn handler(&self) -> (r: &CallHandler)
        ensures
            *r == self.handler_spec(),
    {
        &self.call_handler
    }

    /// Places a call.
    pub fn send_outbound_invite(&self, call_id: &str, from_uri: &str, to_uri: &str) -> (r: (
        OutboundCall,
        Vec<CallCommand>,
    ))
        ensures
            r.0@ == placed_call(call_id@, from_uri@, to_uri@, "sentiric-out"@),
            commands_view(r.1@) == placing_commands(call_id@),
    {
        self.call_handler.place_call(call_id, from_uri, to_uri, "sentiric-out")
    }

    /// What is known of a call: the first thing to be asked on a packet.
    pub fn lookup(&self, call_id: &str) -> (r: PacketLookup)
        ensures
            r@ == lookup_of(self.sessions(), call_id@),
    {
        match self.calls.cached(call_id) {
            Some(session) => PacketLookup::Known(session.active_transaction),
            None => PacketLookup::Unknown {
                call_id: call_id.to_owned(),
                key: storage_key(call_id),
            },
        }
    }

    /// Takes up what the persistent store has for a call, unless the call is in memory.
    pub fn restore(&mut self, call_id: &str, stored: Option<CallSessionData>) -> (r: PacketLookup)
        ensures
            final(self).sessions() == with_restored(
                old(self).sessions(),
                call_id@,
                data_view(stored),
            ),
            final(self).handler_spec() == old(self).handler_spec(),
            r@ == lookup_of(final(self).sessions(), call_id@),
    {
        match self.calls.get(call_id, stored) {
            Some(session) => PacketLookup::Known(session.active_transaction),
            None => PacketLookup::Unknown {
                call_id: call_id.to_owned(),
                key: storage_key(call_id),
            },
        }
    }

    /// Acts on a packet. `verdict` is what the transaction check says of it where its call is
    /// known; `to_user` is the user part of the To field's URI, `None` where the field is no URI.
    pub fn handle_packet(
        &mut self,
        packet: SipPacket,
        source_ip: String,
        to_user: Option<Option<String>>,
        verdict: TransactionAction,
    ) -> (r: PacketOutcome)
        ensures
            r@ == outcome_of(
                old(self).sessions(),
                packet@,
                source_ip@,
                user_view(to_user),
                verdict@,
            ),
            final(self).sessions() == sessions_after(old(self).sessions(), packet@, verdict@),
            final(self).handler_spec() == old(self).handler_spec(),
    {
        let call_id = packet.call_id();
        let known = self.calls.cached(call_id.as_str()).is_some();
        let action = if known {
            verdict
        } else {
            TransactionAction::ForwardToApp
        };
        match action {
            TransactionAction::RetransmitResponse(cached) => {
                return PacketOutcome::Retransmit(cached);
            },
            TransactionAction::Ignore => {
                return PacketOutcome::Ignored;
            },
            TransactionAction::ForwardToApp => {},
        }
        if !packet.is_request {
            return self.handle_response(packet);
        }
        match packet.method {
            Method::Invite => {
                let (invite, commands) = self.call_handler.process_invite(
                    packet,
                    source_ip,
                    to_user,
                );
                PacketOutcome::Invite(invite, commands)
            },
            Method::Ack => PacketOutcome::Commands(
                self.call_handler.process_ack(&mut self.calls, call_id.as_str()),
            ),
            Method::Bye => PacketOutcome::Commands(
                self.call_handler.process_bye(&mut self.calls, &packet),
            ),
            Method::Cancel => if known {
                PacketOutcome::Commands(
                    self.call_handler.process_bye(&mut self.calls, &packet),
                )
            } else {
                assert(self.sessions().remove(packet@.call_id()) == self.sessions());
                PacketOutcome::Ignored
            },
            Method::Other(_) => PacketOutcome::Ignored,
        }
    }

    /// Takes note of a response; nothing follows from it.
    fn handle_response(&self, response: SipPacket) -> (r: PacketOutcome)
        ensures
            r@ == (PacketOutcomeView::Response {
                call_id: response@.call_id(),
                status_code: response@.status_code,
            }),
    {
        PacketOutcome::Response { call_id: response.call_id(), status_code: response.status_code }
    }

    /// Answers an INVITE and takes its call up.
    pub fn answer_prepared(
        &mut self,
        invite: AnsweringInvite,
        plain: SipPacket,
        local_tag: String,
        sdp_body: Vec<u8>,
    ) -> (r: (AnsweredInvite, Vec<CallCommand>))
        ensures
            ({
                let answer = answer_of(old(self).config()@, plain@, local_tag@, sdp_body@);
                let session = answered_session(invite@, answer, local_tag@);
                &&& final(self).sessions() == old(self).sessions().insert(
                    session.data.call_id,
                    session,
                )
                &&& commands_view(r.1@) == answer_commands(session, answer)
            }),
            r.0@ == answered_invite(invite@),
            final(self).handler_spec() == old(self).handler_spec(),
    {
        self.call_handler.answer_prepared(&mut self.calls, invite, plain, local_tag, sdp_body)
    }

    /// Takes a placed call up and sends its INVITE.
    pub fn outbound_prepared(
        &mut self,
        call: OutboundReady,
        local_tag: String,
        sdp_body: Vec<u8>,
    ) -> (r: Vec<CallCommand>)
        ensures
            ({
                let session = outbound_session(call@, local_tag@);
                final(self).sessions() == old(self).sessions().insert(
                    session.data.call_id,
                    session,
                )
            }),
            commands_view(r@) == outbound_commands(
                old(self).config()@,
                call@,
                local_tag@,
                sdp_body@,
            ),
            final(self).handler_spec() == old(self).handler_spec(),
    {
        self.call_handler.outbound_prepared(&mut self.calls, call, local_tag, sdp_body)
    }

    /// Ends a call at the request of the platform.
    pub fn terminate_session(&mut self, call_id: &str) -> (r: Vec<CallCommand>)
        ensures
            final(self).sessions() == old(self).sessions().remove(call_id@),
            commands_view(r@) == ending_commands(old(self).sessions(), call_id@),
            final(self).handler_spec() == old(self).handler_spec(),
    {
        self.call_handler.end_call(&mut self.calls, call_id)
    }
}

/// What is known of a call and what comes of a packet are seen whole.
pub proof fn outcome_is_seen_whole(lookup: PacketLookup, outcome: PacketOutcome)
    ensures
        match (lookup, lookup@) {
            (PacketLookup::Known(a), PacketLookupView::Known(b)) => match (a, b) {
                (Some(tx), Some(seen)) => seen == tx@,
                (None, None) => true,
                _ => false,
            },
            (
                PacketLookup::Unknown { call_id, key },
                PacketLookupView::Unknown { call_id: c, key: k },
            ) => c == call_id@ && k == key@,
            _ => false,
        },
        match (outcome, outcome@) {
            (PacketOutcome::Retransmit(a), PacketOutcomeView::Retransmit(b)) => b == a@,
            (PacketOutcome::Ignored, PacketOutcomeView::Ignored) => true,
            (PacketOutcome::Invite(a, x), PacketOutcomeView::Invite(b, y)) => b == a@ && y
                == commands_view(x@),
            (PacketOutcome::Commands(x), PacketOutcomeView::Commands(y)) => y == commands_view(x@),
            (
                PacketOutcome::Response { call_id, status_code },
                PacketOutcomeView::Response { call_id: c, status_code: s },
            ) => c == call_id@ && s == status_code,
            _ => false,
        },
{
}

} // verus!
