//! What holds of a call from its INVITE to its end, whatever the services around it answer.
use crate::config::AppConfigView;
use crate::sip::dialplan::{DialplanAction, DialplanResolutionView};
use crate::sip::engine::{lookup_of, outcome_of, sessions_after, PacketLookupView, PacketOutcomeView};
use crate::sip::handlers::calls::{
    allocation_commands, answer_commands, answer_of, answered_invite, answered_session, audio_target,
    contact_of, ending_commands, event_of, opening_commands, outbound_commands, outbound_headers,
    outbound_session, placed_call, placed_with_port, placing_commands, play, preparing_commands,
    routed_invite, routing_commands, sent_commands, tagged, with_port, with_tag,
    AllocatingInviteView, AnsweredInviteView, AnsweringInviteView, OutboundReadyView, RoutingInviteView,
    NAT_WARMER_URI,
};
use crate::sip::handlers::command::CallCommandView;
use crate::sip::handlers::events::{CallEventView, Timestamp};
use crate::sip::handlers::media::{allocation_of, offer_of, release_of, AudioProfileView};
use crate::sip::layers::{inserted_call_is_found, Layers};
use crate::sip::packet::{header_or_empty, header_value, HeaderNameView, HeaderView, SipPacketView};
use crate::sip::sdp::rtp_target_of;
use crate::sip::store::{
    in_state, no_sessions, persist_of, session_at, storage_key_of, with_restored,
    CallSessionDataView, CallSessionView, CallState,
};
use crate::sip::transaction::{SipTransactionView, TransactionActionView};
use crate::text::{decimal, has_pattern, socket_text};
use vstd::prelude::*;

verus! {

/// An INVITE, and what the world answers while it is handled: the dialplan, the media service,
/// the material of the answer, and whether the answer could be sent.
pub struct InviteHistory {
    pub request: SipPacketView,
    pub source_ip: Seq<char>,
    pub to_user: Option<Option<Seq<char>>>,
    pub body_text: Seq<char>,
    pub dialplan: Option<DialplanResolutionView>,
    pub port: Option<u32>,
    pub plain: SipPacketView,
    pub tag: Seq<char>,
    pub sdp: Seq<u8>,
    pub sent: bool,
}

impl InviteHistory {
    /// A dialplan that answers names a treatment.
    pub open spec fn valid(self) -> bool {
        self.dialplan matches Some(resolution) ==> resolution.action is Some
    }

    /// The INVITE is answered with success.
    pub open spec fn accepted(self) -> bool {
        self.dialplan is Some && self.port is Some
    }

    pub open spec fn allocating(self) -> AllocatingInviteView {
        AllocatingInviteView {
            request: self.request,
            source_ip: self.source_ip,
            action: self.dialplan->0.action->0,
            resolution: self.dialplan->0,
        }
    }

    pub open spec fn answering(self) -> AnsweringInviteView {
        with_port(self.allocating(), self.body_text, self.port->0)
    }

    pub open spec fn answer(self, config: AppConfigView) -> SipPacketView {
        answer_of(config, self.plain, self.tag, self.sdp)
    }

    pub open spec fn session(self, config: AppConfigView) -> CallSessionView {
        answered_session(self.answering(), self.answer(config), self.tag)
    }

    pub open spec fn answered(self) -> AnsweredInviteView {
        AnsweredInviteView {
            call_id: self.request.call_id(),
            from: self.request.from_uri(),
            to: self.request.to_uri(),
            resolution: self.dialplan->0,
            rtp_port: self.port->0,
            rtp_target: audio_target(self.body_text, self.source_ip),
        }
    }

    /// The caller's description says where its audio goes.
    pub open spec fn described(self) -> bool {
        rtp_target_of(self.body_text) is Some
    }

    /// Every command that is given on the INVITE, in order.
    #[verifier::opaque]
    pub open spec fn commands(
        self,
        config: AppConfigView,
        profile: AudioProfileView,
    ) -> Seq<CallCommandView> {
        let opened = opening_commands(self.request, self.to_user) + routing_commands(
            self.request,
            self.dialplan,
        );
        if self.dialplan is None {
            opened
        } else {
            let allocated = opened + allocation_commands(
                config,
                profile,
                self.body_text,
                self.port,
            );
            if self.port is None {
                allocated
            } else {
                allocated + answer_commands(self.session(config), self.answer(config))
                    + sent_commands(self.answered(), self.sent)
            }
        }
    }
}

/// Exactly one of the commands is one of those that `p` picks.
pub open spec fn exactly_one(
    commands: Seq<CallCommandView>,
    p: spec_fn(CallCommandView) -> bool,
) -> bool {
    exists|i: int|
        0 <= i < commands.len() && p(#[trigger] commands[i]) && forall|j: int|
            0 <= j < commands.len() && p(#[trigger] commands[j]) ==> j == i
}

/// None of the commands is one of those that `p` picks.
pub open spec fn none_of(
    commands: Seq<CallCommandView>,
    p: spec_fn(CallCommandView) -> bool,
) -> bool {
    forall|i: int| 0 <= i < commands.len() ==> !p(#[trigger] commands[i])
}

/// The command answers the request for good.
pub open spec fn is_final_response(c: CallCommandView) -> bool {
    c is SendAnswer || c is SendError || c is SendAccepted
}

/// The number of commands that set the media of an accepted INVITE up.
spec fn media_len(h: InviteHistory) -> int {
    if h.described() {
        1
    } else {
        0
    }
}

/// The commands of an INVITE, one by one.
proof fn lemma_commands(
    h: InviteHistory,
    config: AppConfigView,
    profile: AudioProfileView,
)
    requires
        h.valid(),
    ensures
        ({
            let all = h.commands(config, profile);
            let n = media_len(h);
            &&& all.len() == if h.dialplan is None {
                3
            } else if h.port is None {
                4
            } else if h.sent {
                7 + n
            } else {
                6 + n
            }
            &&& all[0] == CallCommandView::SendTrying
            &&& all[1] is ResolveDialplan
            &&& h.dialplan is None ==> all[2] == (CallCommandView::SendError {
                code: 500,
                reason: "Routing Error"@,
            })
            &&& h.dialplan is Some ==> all[2] == CallCommandView::AllocatePort(
                allocation_of(h.request.call_id()),
            )
            &&& h.dialplan is Some && h.port is None ==> all[3] == (CallCommandView::SendError {
                code: 503,
                reason: "Media Error"@,
            })
            &&& h.accepted() ==> {
                &&& h.described() ==> all[3] == play(
                    NAT_WARMER_URI@,
                    h.port->0,
                    rtp_target_of(h.body_text)->0,
                )
                &&& all[3 + n] == (CallCommandView::Prepare {
                    tag_prefix: "b2bua"@,
                    offer: offer_of(config, profile, h.port->0),
                })
                &&& all[4 + n] == CallCommandView::Persist(
                    persist_of(h.request.call_id(), h.session(config).data),
                )
                &&& all[5 + n] == CallCommandView::SendAnswer(h.answer(config))
                &&& h.sent ==> all[6 + n] == sent_commands(h.answered(), true)[0]
                &&& sent_commands(h.answered(), true)[0] is PublishStarted
            }
        }),
{
    reveal(InviteHistory::commands);
}

/// Every INVITE is first acknowledged as under way, and then gets exactly one final response.
pub proof fn invite_gets_one_final_response(
    h: InviteHistory,
    config: AppConfigView,
    profile: AudioProfileView,
)
    requires
        h.valid(),
    ensures
        h.commands(config, profile).first() is SendTrying,
        exactly_one(h.commands(config, profile), |c: CallCommandView| c is SendTrying),
        exactly_one(h.commands(config, profile), |c: CallCommandView| is_final_response(c)),
{
    lemma_commands(h, config, profile);
    let all = h.commands(config, profile);
    let f = |c: CallCommandView| is_final_response(c);
    let t = |c: CallCommandView| c is SendTrying;
    assert(t(all[0]));
    let last = if h.dialplan is None {
        2
    } else if h.port is None {
        3
    } else {
        5 + media_len(h)
    };
    assert(f(all[last]));
}

/// Where the dialplan cannot be asked, the caller is told so and nothing else is done: no port is
/// rented, nothing is stored, nothing is published.
pub proof fn unrouted_invite_is_refused(
    h: InviteHistory,
    config: AppConfigView,
    profile: AudioProfileView,
)
    requires
        h.dialplan is None,
    ensures
        h.commands(config, profile) == opening_commands(h.request, h.to_user).push(
            CallCommandView::SendError { code: 500, reason: "Routing Error"@ },
        ),
{
    lemma_commands(h, config, profile);
    reveal(InviteHistory::commands);
}

/// Where no port can be had, the caller is told so: nothing is stored, played or published.
pub proof fn invite_without_port_is_refused(
    h: InviteHistory,
    config: AppConfigView,
    profile: AudioProfileView,
)
    requires
        h.valid(),
        h.dialplan is Some,
        h.port is None,
    ensures
        h.commands(config, profile) == opening_commands(h.request, h.to_user).push(
            CallCommandView::AllocatePort(allocation_of(h.request.call_id())),
        ).push(CallCommandView::SendError { code: 503, reason: "Media Error"@ }),
{
    lemma_commands(h, config, profile);
    reveal(InviteHistory::commands);
}

/// The start of a call is published exactly where its answer has been sent, once, and right after
/// the answer; it names the call, its two ends, the rented port and the caller's audio.
pub proof fn start_is_published_after_the_answer(
    h: InviteHistory,
    config: AppConfigView,
    profile: AudioProfileView,
)
    requires
        h.valid(),
    ensures
        ({
            let all = h.commands(config, profile);
            let started = CallCommandView::PublishStarted {
                call_id: h.request.call_id(),
                server_port: h.port->0,
                caller_rtp: audio_target(h.body_text, h.source_ip),
                from: h.request.from_uri(),
                to: h.request.to_uri(),
                dialplan: h.dialplan->0,
            };
            if h.accepted() && h.sent {
                &&& exactly_one(all, |c: CallCommandView| c is PublishStarted)
                &&& all.last() == started
                &&& all[all.len() - 2] == CallCommandView::SendAnswer(h.answer(config))
            } else {
                none_of(all, |c: CallCommandView| c is PublishStarted)
            }
        }),
{
    lemma_commands(h, config, profile);
    let all = h.commands(config, profile);
    let p = |c: CallCommandView| c is PublishStarted;
    if h.accepted() && h.sent {
        assert(p(all[all.len() - 1]));
    }
}

/// The way to an accepted caller is opened before the answer is prepared, from the port that was
/// rented to where the caller's description says, if it says so. Nothing else is ever played, and
/// nothing at all where the description says nothing or the INVITE is refused.
pub proof fn media_is_set_up_before_the_answer(
    h: InviteHistory,
    config: AppConfigView,
    profile: AudioProfileView,
)
    requires
        h.valid(),
    ensures
        ({
            let all = h.commands(config, profile);
            let prepare = CallCommandView::Prepare {
                tag_prefix: "b2bua"@,
                offer: offer_of(config, profile, h.port->0),
            };
            if h.accepted() && h.described() {
                &&& exactly_one(all, |c: CallCommandView| c is PlayAudio)
                &&& all[3] == play(NAT_WARMER_URI@, h.port->0, rtp_target_of(h.body_text)->0)
                &&& all[4] == prepare
            } else {
                &&& none_of(all, |c: CallCommandView| c is PlayAudio)
                &&& h.accepted() ==> all[3] == prepare
            }
        }),
{
    lemma_commands(h, config, profile);
    let all = h.commands(config, profile);
    let p = |c: CallCommandView| c is PlayAudio;
    if h.accepted() && h.described() {
        assert(p(all[3]));
    }
}

/// The description that goes into an answer is that of the rented port: it is asked for once, before
/// the answer, and says the public address, that port if it is one of sixteen bits, no RTCP and the
/// codecs of the platform. What is then reported as its text is the body of the answer.
pub proof fn rented_port_is_described(
    h: InviteHistory,
    config: AppConfigView,
    profile: AudioProfileView,
)
    requires
        h.valid(),
        h.accepted(),
    ensures
        ({
            let all = h.commands(config, profile);
            let offer = offer_of(config, profile, h.port->0);
            &&& exactly_one(all, |c: CallCommandView| c is Prepare)
            &&& exists|i: int, j: int|
                {
                    &&& 0 <= i < j < all.len()
                    &&& #[trigger] all[i] == (CallCommandView::Prepare {
                        tag_prefix: "b2bua"@,
                        offer,
                    })
                    &&& #[trigger] all[j] == CallCommandView::SendAnswer(h.answer(config))
                }
            &&& h.answer(config).body == h.sdp
            &&& offer.ip == config.public_ip
            &&& h.port->0 < 0x10000 ==> offer.port == h.port->0
            &&& !offer.rtcp
            &&& offer.codecs == profile.codecs
        }),
{
    lemma_commands(h, config, profile);
    let all = h.commands(config, profile);
    let p = |c: CallCommandView| c is Prepare;
    let n = media_len(h);
    assert(p(all[3 + n]));
    assert(all[5 + n] == CallCommandView::SendAnswer(h.answer(config)));
}

/// The service makes nobody hear anything but what opens the way to the caller, whatever the
/// dialplan decides.
pub proof fn only_the_way_is_opened(
    h: InviteHistory,
    config: AppConfigView,
    profile: AudioProfileView,
)
    requires
        h.valid(),
    ensures
        none_of(
            h.commands(config, profile),
            |c: CallCommandView| c is PlayAudio && c->PlayAudio_audio_uri != NAT_WARMER_URI@,
        ),
{
    lemma_commands(h, config, profile);
}

/// Every call that the dialplan routes is handled alike: what the dialplan decides is passed on in
/// the published start of the call, and changes nothing else.
pub proof fn treatment_is_left_to_others(
    h: InviteHistory,
    other: DialplanResolutionView,
    config: AppConfigView,
    profile: AudioProfileView,
)
    requires
        h.valid(),
        h.dialplan is Some,
        other.action is Some,
    ensures
        ({
            let g = InviteHistory { dialplan: Some(other), ..h };
            let a = h.commands(config, profile);
            let b = g.commands(config, profile);
            &&& g.session(config) == h.session(config)
            &&& a.len() == b.len()
            &&& forall|i: int|
                0 <= i < a.len() ==> #[trigger] a[i] == b[i] || (a[i] is PublishStarted
                    && b[i] is PublishStarted)
        }),
{
    let g = InviteHistory { dialplan: Some(other), ..h };
    lemma_commands(h, config, profile);
    lemma_commands(g, config, profile);
    reveal(InviteHistory::commands);
}

/// The commands that end a call with that port.
pub open spec fn ending_with(call_id: Seq<char>, port: u32) -> Seq<CallCommandView> {
    seq![
        CallCommandView::Forget { key: storage_key_of(call_id) },
        CallCommandView::ReleasePort(release_of(port, call_id)),
        CallCommandView::PublishEnded { call_id },
    ]
}

/// The port that was rented for an accepted INVITE is the one that is given back when the call ends,
/// with the end published, whatever the engine does in between, unless it ends the call or takes
/// its name over.
pub proof fn rented_port_is_given_back(
    h: InviteHistory,
    config: AppConfigView,
    sessions: Map<Seq<char>, CallSessionView>,
    steps: Seq<EngineStep>,
)
    requires
        h.accepted(),
        forall|i: int| 0 <= i < steps.len() ==> !may_end(#[trigger] steps[i], h.request.call_id()),
    ensures
        ending_commands(
            after_steps(sessions.insert(h.request.call_id(), h.session(config)), steps),
            h.request.call_id(),
        ) == ending_with(h.request.call_id(), h.port->0),
{
    call_stays_up(
        sessions.insert(h.request.call_id(), h.session(config)),
        steps,
        h.request.call_id(),
    );
}

/// The port that was rented for a placed call is the one that is given back when the call ends, with
/// the end published, whatever the engine does in between, unless it ends the call or takes its
/// name over.
pub proof fn placed_call_gives_its_port_back(
    call: OutboundReadyView,
    tag: Seq<char>,
    sessions: Map<Seq<char>, CallSessionView>,
    steps: Seq<EngineStep>,
)
    requires
        forall|i: int| 0 <= i < steps.len() ==> !may_end(#[trigger] steps[i], call.call_id),
    ensures
        ending_commands(
            after_steps(sessions.insert(call.call_id, outbound_session(call, tag)), steps),
            call.call_id,
        ) == ending_with(call.call_id, call.rtp_port),
{
    call_stays_up(
        sessions.insert(call.call_id, outbound_session(call, tag)),
        steps,
        call.call_id,
    );
}

/// The INVITE that places a call names it, so that the peer can close it: on a BYE or a CANCEL with
/// that name the request is accepted, the rented port is given back and the end is published.
pub proof fn placed_call_is_closed_by_its_peer(
    call: OutboundReadyView,
    tag: Seq<char>,
    sessions: Map<Seq<char>, CallSessionView>,
    packet: SipPacketView,
    source_ip: Seq<char>,
    to_user: Option<Option<Seq<char>>>,
)
    requires
        packet.is_request,
        packet.method is Bye || packet.method is Cancel,
        packet.call_id() == header_or_empty(outbound_headers(call, tag), HeaderNameView::CallId),
    ensures
        outcome_of(
            sessions.insert(call.call_id, outbound_session(call, tag)),
            packet,
            source_ip,
            to_user,
            TransactionActionView::ForwardToApp,
        ) == PacketOutcomeView::Commands(
            seq![CallCommandView::SendAccepted] + ending_with(call.call_id, call.rtp_port),
        ),
{
    let headers = outbound_headers(call, tag);
    reveal_with_fuel(header_value, 4);
    assert(headers.drop_first().first() == headers[1]);
    assert(headers.drop_first().drop_first().first() == headers[2]);
    assert(packet.call_id() == call.call_id);
}

/// A call ends once: when it has ended, ending it again gives no port back and publishes nothing.
pub proof fn call_ends_once(sessions: Map<Seq<char>, CallSessionView>, call_id: Seq<char>)
    ensures
        ending_commands(sessions.remove(call_id), call_id) == seq![
            CallCommandView::Forget { key: storage_key_of(call_id) },
        ],
{
}

/// A call that is taken up by one process can be ended by the next: once it has been read from the
/// persistent store, its port is given back and its end is published as if nothing had happened.
pub proof fn restarted_service_ends_calls(layers: Layers, session: CallSessionView)
    ensures
        ({
            let call_id = session.data.call_id;
            let after = layers.inserted(session).restarted().read(call_id).cache;
            ending_commands(after, call_id) == ending_commands(
                layers.inserted(session).cache,
                call_id,
            )
        }),
{
    inserted_call_is_found(layers, session);
}

/// BYE and CANCEL close a known call alike: the request is accepted, the port is given back and the
/// end is published; then the call is no longer known.
pub proof fn bye_and_cancel_close_a_call(
    sessions: Map<Seq<char>, CallSessionView>,
    packet: SipPacketView,
    source_ip: Seq<char>,
    to_user: Option<Option<Seq<char>>>,
)
    requires
        packet.is_request,
        packet.method is Bye || packet.method is Cancel,
        sessions.contains_key(packet.call_id()),
    ensures
        outcome_of(sessions, packet, source_ip, to_user, TransactionActionView::ForwardToApp)
            == PacketOutcomeView::Commands(
            seq![CallCommandView::SendAccepted] + ending_with(
                packet.call_id(),
                sessions[packet.call_id()].data.rtp_port,
            ),
        ),
        !sessions_after(
            sessions,
            packet,
            TransactionActionView::ForwardToApp,
        ).contains_key(packet.call_id()),
{
}

/// Where the call is not known, a BYE is accepted and its key deleted, a CANCEL is passed over, and
/// neither gives a port back, publishes anything or changes a call, whatever the transaction check
/// says.
pub proof fn unknown_calls_are_not_closed(
    sessions: Map<Seq<char>, CallSessionView>,
    packet: SipPacketView,
    source_ip: Seq<char>,
    to_user: Option<Option<Seq<char>>>,
    verdict: TransactionActionView,
)
    requires
        packet.is_request,
        packet.method is Bye || packet.method is Cancel,
        !sessions.contains_key(packet.call_id()),
    ensures
        ({
            let outcome = outcome_of(sessions, packet, source_ip, to_user, verdict);
            &&& packet.method is Bye ==> outcome == PacketOutcomeView::Commands(
                seq![
                    CallCommandView::SendAccepted,
                    CallCommandView::Forget { key: storage_key_of(packet.call_id()) },
                ],
            )
            &&& packet.method is Cancel ==> outcome == PacketOutcomeView::Ignored
            &&& sessions_after(sessions, packet, verdict) == sessions
        }),
{
    assert(sessions.remove(packet.call_id()) == sessions);
    assert(seq![CallCommandView::SendAccepted] + ending_commands(sessions, packet.call_id())
        == seq![
        CallCommandView::SendAccepted,
        CallCommandView::Forget { key: storage_key_of(packet.call_id()) },
    ]);
}

/// An ACK of a known call establishes it and publishes that it has been answered; an ACK of an
/// unknown call does nothing.
pub proof fn ack_establishes_a_call(
    sessions: Map<Seq<char>, CallSessionView>,
    packet: SipPacketView,
    source_ip: Seq<char>,
    to_user: Option<Option<Seq<char>>>,
)
    requires
        packet.is_request,
        packet.method is Ack,
    ensures
        ({
            let call_id = packet.call_id();
            let verdict = TransactionActionView::ForwardToApp;
            let outcome = outcome_of(sessions, packet, source_ip, to_user, verdict);
            let after = sessions_after(sessions, packet, verdict);
            if sessions.contains_key(call_id) {
                &&& outcome matches PacketOutcomeView::Commands(commands) && commands.last() == (
                CallCommandView::PublishAnswered { call_id })
                &&& after.contains_key(call_id)
                &&& after[call_id].data.state == CallState::Established
                &&& after[call_id].data.rtp_port == sessions[call_id].data.rtp_port
                &&& after[call_id].active_transaction == sessions[call_id].active_transaction
            } else {
                &&& outcome == PacketOutcomeView::Commands(Seq::empty())
                &&& after == sessions
            }
        }),
{
}

/// A packet changes nothing for a call that is not its own.
pub proof fn packets_touch_only_their_call(
    sessions: Map<Seq<char>, CallSessionView>,
    packet: SipPacketView,
    verdict: TransactionActionView,
    other: Seq<char>,
)
    requires
        other != packet.call_id(),
    ensures
        session_at(sessions_after(sessions, packet, verdict), other) == session_at(
            sessions,
            other,
        ),
{
}

/// A packet that repeats an answered request of a known call is given the same answer again, and
/// nothing else comes of it; one that needs no answer is passed over.
pub proof fn repeated_requests_are_not_handled_again(
    sessions: Map<Seq<char>, CallSessionView>,
    packet: SipPacketView,
    source_ip: Seq<char>,
    to_user: Option<Option<Seq<char>>>,
    cached: SipPacketView,
)
    requires
        sessions.contains_key(packet.call_id()),
    ensures
        ({
            let again = TransactionActionView::RetransmitResponse(cached);
            let ignore = TransactionActionView::Ignore;
            &&& outcome_of(sessions, packet, source_ip, to_user, again)
                == PacketOutcomeView::Retransmit(cached)
            &&& sessions_after(sessions, packet, again) == sessions
            &&& outcome_of(sessions, packet, source_ip, to_user, ignore)
                == PacketOutcomeView::Ignored
            &&& sessions_after(sessions, packet, ignore) == sessions
        }),
{
}

/// An accepted INVITE is kept with its answer, for the check of later packets of its call.
pub proof fn answered_invite_is_kept(
    h: InviteHistory,
    config: AppConfigView,
    sessions: Map<Seq<char>, CallSessionView>,
)
    requires
        h.accepted(),
    ensures
        lookup_of(
            sessions.insert(h.request.call_id(), h.session(config)),
            h.request.call_id(),
        ) == PacketLookupView::Known(
            Some(
                SipTransactionView { request: h.request, response: Some(h.answer(config)) },
            ),
        ),
{
}

/// A tagged value begins as it did and holds a tag.
proof fn lemma_tagged_has_tag(value: Seq<char>, tag: Seq<char>)
    ensures
        has_pattern(tagged(value, tag), ";tag="@),
        value.is_prefix_of(tagged(value, tag)),
{
    let marked = value + ";tag="@ + tag;
    assert(";tag="@.is_prefix_of(marked.skip(value.len() as int))) by {
        assert(marked.skip(value.len() as int).subrange(0, ";tag="@.len() as int) == ";tag="@);
    }
    assert(marked.subrange(0, value.len() as int) == value);
    assert(value.subrange(0, value.len() as int) == value);
}

/// Tagging puts a tag into the first To field, and leaves the rest as it is.
proof fn lemma_with_tag(headers: Seq<HeaderView>, tag: Seq<char>, name: HeaderNameView)
    ensures
        with_tag(headers, tag).len() == headers.len(),
        name != HeaderNameView::To ==> header_value(with_tag(headers, tag), name) == header_value(
            headers,
            name,
        ),
        header_value(headers, HeaderNameView::To) matches Some(value) ==> header_value(
            with_tag(headers, tag),
            HeaderNameView::To,
        ) == Some(tagged(value, tag)),
        header_value(headers, HeaderNameView::To) is None ==> with_tag(headers, tag) == headers,
    decreases headers.len(),
{
    if headers.len() > 0 {
        let rest = headers.drop_first();
        let tagged_headers = with_tag(headers, tag);
        lemma_with_tag(rest, tag, name);
        if headers.first().name == HeaderNameView::To {
            assert(tagged_headers.drop_first() == rest);
        } else {
            assert(tagged_headers.drop_first() == with_tag(rest, tag));
            if header_value(headers, HeaderNameView::To) is None {
                assert(tagged_headers == headers);
            }
        }
    }
}

/// Fields that are added at the end are found where none of their name stood before, and hide none
/// that did.
proof fn lemma_header_pushed(headers: Seq<HeaderView>, added: HeaderView, name: HeaderNameView)
    ensures
        header_value(headers.push(added), name) == match header_value(headers, name) {
            Some(value) => Some(value),
            None => if added.name == name {
                Some(added.value)
            } else {
                None
            },
        },
    decreases headers.len(),
{
    if headers.len() > 0 {
        lemma_header_pushed(headers.drop_first(), added, name);
        assert(headers.push(added).drop_first() == headers.drop_first().push(added));
    } else {
        assert(headers.push(added).drop_first() == headers);
    }
}

/// The answer to an INVITE keeps the fields of the plain response, names the call as that does,
/// and bears a tag in its To field: the one it had, or else that of this end.
pub proof fn answer_bears_a_tag(
    config: AppConfigView,
    plain: SipPacketView,
    tag: Seq<char>,
    sdp: Seq<u8>,
)
    ensures
        ({
            let answer = answer_of(config, plain, tag, sdp);
            &&& answer.call_id() == plain.call_id()
            &&& answer.from_uri() == plain.from_uri()
            &&& header_value(plain.headers, HeaderNameView::To) matches Some(value) ==> {
                let answered = header_value(answer.headers, HeaderNameView::To);
                &&& answered is Some
                &&& has_pattern(answered->0, ";tag="@)
                &&& value.is_prefix_of(answered->0)
                &&& has_pattern(value, ";tag="@) ==> answered->0 == value
                &&& !has_pattern(value, ";tag="@) ==> answered->0 == value + ";tag="@ + tag
            }
            &&& answer.body == sdp
        }),
{
    let headers = with_tag(plain.headers, tag);
    let contact = HeaderView { name: HeaderNameView::Contact, value: contact_of(config) };
    let kind = HeaderView { name: HeaderNameView::ContentType, value: "application/sdp"@ };
    lemma_with_tag(plain.headers, tag, HeaderNameView::CallId);
    lemma_with_tag(plain.headers, tag, HeaderNameView::From);
    lemma_header_pushed(headers, contact, HeaderNameView::CallId);
    lemma_header_pushed(headers.push(contact), kind, HeaderNameView::CallId);
    lemma_header_pushed(headers, contact, HeaderNameView::From);
    lemma_header_pushed(headers.push(contact), kind, HeaderNameView::From);
    lemma_header_pushed(headers, contact, HeaderNameView::To);
    lemma_header_pushed(headers.push(contact), kind, HeaderNameView::To);
    if let Some(value) = header_value(plain.headers, HeaderNameView::To) {
        lemma_tagged_has_tag(value, tag);
    }
}

/// Audio goes where the caller's description says, if it says so, and else to the sender of the
/// INVITE.
pub proof fn audio_goes_to_the_caller(body_text: Seq<char>, source_ip: Seq<char>)
    ensures
        rtp_target_of(body_text) matches Some(target) ==> audio_target(body_text, source_ip)
            == target,
        rtp_target_of(body_text) is None ==> audio_target(body_text, source_ip) == socket_text(
            source_ip,
            30000,
        ),
{
}

/// One thing that the engine does to the calls that are up.
pub enum EngineStep {
    /// A packet is acted on.
    Packet { packet: SipPacketView, verdict: TransactionActionView },
    /// A call is taken up: an INVITE is answered, or a call is placed.
    TakeUp { session: CallSessionView },
    /// A call is read from the persistent store, unless it is known.
    Restore { call_id: Seq<char>, stored: Option<CallSessionDataView> },
    /// A call is ended at the request of the platform.
    Terminate { call_id: Seq<char> },
}

/// The calls after a step.
pub open spec fn after_step(
    sessions: Map<Seq<char>, CallSessionView>,
    step: EngineStep,
) -> Map<Seq<char>, CallSessionView> {
    match step {
        EngineStep::Packet { packet, verdict } => sessions_after(sessions, packet, verdict),
        EngineStep::TakeUp { session } => sessions.insert(session.data.call_id, session),
        EngineStep::Restore { call_id, stored } => with_restored(sessions, call_id, stored),
        EngineStep::Terminate { call_id } => sessions.remove(call_id),
    }
}

/// The calls after some steps.
pub open spec fn after_steps(
    sessions: Map<Seq<char>, CallSessionView>,
    steps: Seq<EngineStep>,
) -> Map<Seq<char>, CallSessionView>
    decreases steps.len(),
{
    if steps.len() == 0 {
        sessions
    } else {
        after_step(after_steps(sessions, steps.drop_last()), steps.last())
    }
}

/// The step may end the call, or take a call of its name up.
pub open spec fn may_end(step: EngineStep, call_id: Seq<char>) -> bool {
    match step {
        EngineStep::Packet { packet, verdict } => {
            &&& packet.call_id() == call_id
            &&& packet.is_request
            &&& packet.method is Bye || packet.method is Cancel
            &&& verdict is ForwardToApp
        },
        EngineStep::TakeUp { session } => session.data.call_id == call_id,
        EngineStep::Restore { .. } => false,
        EngineStep::Terminate { call_id: ended } => ended == call_id,
    }
}

/// A call stays up, with its port, its two ends, its tag and its transaction, until something ends
/// it or takes its name over.
pub proof fn call_stays_up(
    sessions: Map<Seq<char>, CallSessionView>,
    steps: Seq<EngineStep>,
    call_id: Seq<char>,
)
    requires
        sessions.contains_key(call_id),
        forall|i: int| 0 <= i < steps.len() ==> !may_end(#[trigger] steps[i], call_id),
    ensures
        ({
            let after = after_steps(sessions, steps);
            &&& after.contains_key(call_id)
            &&& after[call_id] == in_state(sessions[call_id], after[call_id].data.state)
            &&& after[call_id].data.state == sessions[call_id].data.state
                || after[call_id].data.state == CallState::Established
        }),
    decreases steps.len(),
{
    if steps.len() > 0 {
        call_stays_up(sessions, steps.drop_last(), call_id);
        assert(!may_end(steps[steps.len() - 1], call_id));
    }
}

/// Each call is kept under its own name.
pub open spec fn keyed(sessions: Map<Seq<char>, CallSessionView>) -> bool {
    forall|call_id: Seq<char>| #[trigger]
        sessions.contains_key(call_id) ==> sessions[call_id].data.call_id == call_id
}

/// Every step keeps each call under its own name, if what is read from the persistent store was
/// stored under it.
pub proof fn calls_stay_under_their_names(
    sessions: Map<Seq<char>, CallSessionView>,
    step: EngineStep,
)
    requires
        keyed(sessions),
        step matches EngineStep::Restore { call_id, stored: Some(data) } ==> data.call_id
            == call_id,
    ensures
        keyed(after_step(sessions, step)),
        keyed(no_sessions()),
{
    let after = after_step(sessions, step);
    assert forall|c: Seq<char>| #[trigger] after.contains_key(c) implies after[c].data.call_id
        == c by {
        if sessions.contains_key(c) {
            assert(sessions[c].data.call_id == c);
        }
    }
}

/// Every INVITE that is new is taken up, whatever header fields it has: the engine hands it on with
/// its sender, and gives the commands with which its history begins. It is first acknowledged as
/// under way; then the dialplan is asked about its From field and the user that it calls. No call
/// changes.
pub proof fn every_new_invite_is_taken_up(
    sessions: Map<Seq<char>, CallSessionView>,
    verdict: TransactionActionView,
    h: InviteHistory,
    config: AppConfigView,
    profile: AudioProfileView,
)
    requires
        h.valid(),
        h.request.is_request,
        h.request.method is Invite,
        sessions.contains_key(h.request.call_id()) ==> verdict is ForwardToApp,
    ensures
        outcome_of(sessions, h.request, h.source_ip, h.to_user, verdict) matches
            PacketOutcomeView::Invite(invite, commands) && {
            &&& invite.request == h.request
            &&& invite.source_ip == h.source_ip
            &&& commands.len() == 2
            &&& commands == h.commands(config, profile).take(2)
            &&& commands[0] is SendTrying
            &&& commands[1] matches CallCommandView::ResolveDialplan {
                caller_contact_value,
                destination_number,
            } && {
                &&& caller_contact_value == h.request.from_uri()
                &&& match h.to_user {
                    Some(Some(user)) => destination_number == user,
                    Some(None) => destination_number.len() == 0,
                    None => destination_number == "unknown"@,
                }
            }
        },
        sessions_after(sessions, h.request, verdict) == sessions,
{
    lemma_commands(h, config, profile);
    reveal(InviteHistory::commands);
    assert(h.commands(config, profile).take(2) == opening_commands(h.request, h.to_user));
}

/// Requests that are none of INVITE, ACK, BYE and CANCEL are passed over, and responses only taken
/// note of, with their call and their status; neither changes a call.
pub proof fn other_packets_change_nothing(
    sessions: Map<Seq<char>, CallSessionView>,
    packet: SipPacketView,
    source_ip: Seq<char>,
    to_user: Option<Option<Seq<char>>>,
    verdict: TransactionActionView,
)
    requires
        packet.is_request ==> packet.method is Other,
        sessions.contains_key(packet.call_id()) ==> verdict is ForwardToApp,
    ensures
        packet.is_request ==> outcome_of(sessions, packet, source_ip, to_user, verdict)
            == PacketOutcomeView::Ignored,
        !packet.is_request ==> (outcome_of(sessions, packet, source_ip, to_user, verdict) matches
            PacketOutcomeView::Response { call_id, status_code } && call_id == packet.call_id()
            && status_code == packet.status_code),
        sessions_after(sessions, packet, verdict) == sessions,
{
}

/// What a transaction check says of a packet of an unknown call does not matter.
pub proof fn verdicts_count_for_known_calls_only(
    sessions: Map<Seq<char>, CallSessionView>,
    packet: SipPacketView,
    source_ip: Seq<char>,
    to_user: Option<Option<Seq<char>>>,
    verdict: TransactionActionView,
)
    requires
        !sessions.contains_key(packet.call_id()),
    ensures
        outcome_of(sessions, packet, source_ip, to_user, verdict) == outcome_of(
            sessions,
            packet,
            source_ip,
            to_user,
            TransactionActionView::ForwardToApp,
        ),
        sessions_after(sessions, packet, verdict) == sessions_after(
            sessions,
            packet,
            TransactionActionView::ForwardToApp,
        ),
{
}

/// What is known of a call is its transaction, where the call is in memory, and else the key under
/// which the persistent store may have it.
pub proof fn calls_are_looked_up_by_name(
    sessions: Map<Seq<char>, CallSessionView>,
    call_id: Seq<char>,
)
    ensures
        sessions.contains_key(call_id) ==> lookup_of(sessions, call_id) == PacketLookupView::Known(
            sessions[call_id].active_transaction,
        ),
        !sessions.contains_key(call_id) ==> (lookup_of(sessions, call_id) matches
            PacketLookupView::Unknown { call_id: named, key } && named == call_id && key
            == "b2bua:call:"@ + call_id),
{
}

/// The closing of a known call by its peer gives exactly four commands: the request is accepted, the
/// call's key is deleted, the port of the call is given back, that very one, and the end of the call
/// is published. When the platform ends the call, the last three are given.
pub proof fn closing_gives_back_the_port_of_the_call(
    sessions: Map<Seq<char>, CallSessionView>,
    packet: SipPacketView,
    source_ip: Seq<char>,
    to_user: Option<Option<Seq<char>>>,
)
    requires
        packet.is_request,
        packet.method is Bye || packet.method is Cancel,
        sessions.contains_key(packet.call_id()),
    ensures
        outcome_of(
            sessions,
            packet,
            source_ip,
            to_user,
            TransactionActionView::ForwardToApp,
        ) matches PacketOutcomeView::Commands(commands) && {
            &&& commands.len() == 4
            &&& commands[0] is SendAccepted
            &&& commands[1] matches CallCommandView::Forget { key } && key == "b2bua:call:"@
                + packet.call_id()
            &&& commands[2] matches CallCommandView::ReleasePort(request) && request.rtp_port
                == sessions[packet.call_id()].data.rtp_port
            &&& commands[3] matches CallCommandView::PublishEnded { call_id } && call_id
                == packet.call_id()
            &&& ending_commands(sessions, packet.call_id()) == commands.skip(1)
        },
        sessions_after(sessions, packet, TransactionActionView::ForwardToApp) == sessions.remove(
            packet.call_id(),
        ),
{
    let ending = ending_commands(sessions, packet.call_id());
    assert((seq![CallCommandView::SendAccepted] + ending).skip(1) == ending);
}

/// An ACK of a known call gives exactly two commands: the established call is written, with all of its
/// data, and that it has been answered is published.
pub proof fn ack_is_written_and_published(
    sessions: Map<Seq<char>, CallSessionView>,
    packet: SipPacketView,
    source_ip: Seq<char>,
    to_user: Option<Option<Seq<char>>>,
)
    requires
        packet.is_request,
        packet.method is Ack,
        sessions.contains_key(packet.call_id()),
    ensures
        outcome_of(
            sessions,
            packet,
            source_ip,
            to_user,
            TransactionActionView::ForwardToApp,
        ) matches PacketOutcomeView::Commands(commands) && {
            let after = sessions_after(sessions, packet, TransactionActionView::ForwardToApp);
            &&& commands.len() == 2
            &&& commands[0] matches CallCommandView::Persist(write) && {
                &&& write.key == "b2bua:call:"@ + packet.call_id()
                &&& write.data == after[packet.call_id()].data
                &&& write.data.state == CallState::Established
                &&& write.ttl_secs == 86400
            }
            &&& commands[1] matches CallCommandView::PublishAnswered { call_id } && call_id
                == packet.call_id()
        },
{
}

/// An accepted INVITE, command by command: a port is asked for in the name of the call; the way to the
/// caller is opened from that port, where the caller's description says where that is; the answer is
/// prepared and the call written with all of its data; and the answer that goes out is the one that
/// is kept.
pub proof fn accepted_invite_goes_step_by_step(
    h: InviteHistory,
    config: AppConfigView,
    profile: AudioProfileView,
)
    requires
        h.valid(),
        h.accepted(),
    ensures
        ({
            let all = h.commands(config, profile);
            let n: int = if rtp_target_of(h.body_text) is Some {
                1
            } else {
                0
            };
            &&& all.len() == 6 + n + if h.sent {
                1int
            } else {
                0
            }
            &&& all[2] matches CallCommandView::AllocatePort(request) && request.call_id
                == h.request.call_id()
            &&& rtp_target_of(h.body_text) matches Some(target) ==> (all[3] matches
                CallCommandView::PlayAudio { audio_uri, server_rtp_port, rtp_target_addr } && {
                &&& audio_uri == "file://audio/tr/system/nat_warmer.wav"@
                &&& server_rtp_port == h.port->0
                &&& rtp_target_addr == target
            })
            &&& all[3 + n] matches CallCommandView::Prepare { tag_prefix, offer } && {
                &&& tag_prefix == "b2bua"@
                &&& offer == offer_of(config, profile, h.port->0)
            }
            &&& all[4 + n] matches CallCommandView::Persist(write) && {
                &&& write.key == "b2bua:call:"@ + h.request.call_id()
                &&& write.ttl_secs == 86400
                &&& write.data.call_id == h.request.call_id()
                &&& write.data.state == CallState::Established
                &&& write.data.from_uri == h.request.from_uri()
                &&& write.data.to_uri == h.request.to_uri()
                &&& write.data.rtp_port == h.port->0
                &&& write.data.local_tag == h.tag
                &&& write.data == h.session(config).data
            }
            &&& all[5 + n] matches CallCommandView::SendAnswer(answer) && {
                &&& h.session(config).active_transaction matches Some(tx) && tx.request == h.request
                    && tx.response == Some(answer)
                &&& answer.body == h.sdp
            }
            &&& h.session(config).endpoint.remote is None
            &&& h.answering().request == h.request
            &&& h.answering().rtp_port == h.port->0
            &&& h.answering().rtp_target == audio_target(h.body_text, h.source_ip)
            &&& h.answering().resolution == h.dialplan->0
        }),
{
    lemma_commands(h, config, profile);
}

/// Tagging changes the first To field alone, and of it only the value.
proof fn lemma_tagging_changes_one_field(headers: Seq<HeaderView>, tag: Seq<char>, i: int)
    requires
        0 <= i < headers.len(),
    ensures
        with_tag(headers, tag).len() == headers.len(),
        with_tag(headers, tag)[i].name == headers[i].name,
        headers[i].name != HeaderNameView::To ==> with_tag(headers, tag)[i] == headers[i],
        (exists|k: int| 0 <= k < i && (#[trigger] headers[k]).name == HeaderNameView::To)
            ==> with_tag(headers, tag)[i] == headers[i],
        headers[i].name == HeaderNameView::To && (forall|k: int|
            0 <= k < i ==> (#[trigger] headers[k]).name != HeaderNameView::To) ==> with_tag(
            headers,
            tag,
        )[i].value == tagged(headers[i].value, tag),
    decreases headers.len(),
{
    lemma_with_tag(headers, tag, HeaderNameView::CallId);
    let rest = headers.drop_first();
    assert(headers.first() == headers[0]);
    if headers[0].name != HeaderNameView::To && i > 0 {
        lemma_tagging_changes_one_field(rest, tag, i - 1);
        lemma_with_tag(rest, tag, HeaderNameView::CallId);
        assert(with_tag(headers, tag)[i] == with_tag(rest, tag)[i - 1]);
        assert(rest[i - 1] == headers[i]);
        if exists|k: int| 0 <= k < i && (#[trigger] headers[k]).name == HeaderNameView::To {
            let k = choose|k: int|
                0 <= k < i && (#[trigger] headers[k]).name == HeaderNameView::To;
            assert(rest[k - 1] == headers[k]);
        }
        if forall|k: int| 0 <= k < i ==> (#[trigger] headers[k]).name != HeaderNameView::To {
            assert forall|k: int| 0 <= k < i - 1 implies (#[trigger] rest[k]).name
                != HeaderNameView::To by {
                assert(rest[k] == headers[k + 1]);
            }
        }
    }
}

/// The answer to an INVITE is the plain response with its first To field tagged, two fields added
/// behind all others, and the description as its body. Every other field, the status and whatever
/// else the response says stay as they are.
pub proof fn answer_keeps_the_plain_response(
    config: AppConfigView,
    plain: SipPacketView,
    tag: Seq<char>,
    sdp: Seq<u8>,
    i: int,
)
    ensures
        ({
            let answer = answer_of(config, plain, tag, sdp);
            let n = plain.headers.len() as int;
            &&& answer.is_request == plain.is_request
            &&& answer.method == plain.method
            &&& answer.uri == plain.uri
            &&& answer.status_code == plain.status_code
            &&& answer.reason == plain.reason
            &&& answer.body == sdp
            &&& answer.headers.len() == n + 2
            &&& answer.headers[n].name is Contact
            &&& answer.headers[n].value == "<sip:b2bua@"@ + (config.public_ip + ":"@ + decimal(
                config.public_sip_port as nat,
            )) + ">"@
            &&& answer.headers[n + 1].name is ContentType
            &&& answer.headers[n + 1].value == "application/sdp"@
            &&& 0 <= i < n ==> {
                let first_to = plain.headers[i].name is To && forall|k: int|
                    0 <= k < i ==> !((#[trigger] plain.headers[k]).name is To);
                &&& answer.headers[i].name == plain.headers[i].name
                &&& !first_to ==> answer.headers[i].value == plain.headers[i].value
                &&& first_to && has_pattern(plain.headers[i].value, ";tag="@)
                    ==> answer.headers[i].value == plain.headers[i].value
                &&& first_to && !has_pattern(plain.headers[i].value, ";tag="@)
                    ==> answer.headers[i].value == plain.headers[i].value + ";tag="@ + tag
            }
        }),
{
    lemma_with_tag(plain.headers, tag, HeaderNameView::CallId);
    if 0 <= i < plain.headers.len() {
        lemma_tagging_changes_one_field(plain.headers, tag, i);
        if !(forall|k: int| 0 <= k < i ==> !((#[trigger] plain.headers[k]).name is To)) {
            let k = choose|k: int| 0 <= k < i && (#[trigger] plain.headers[k]).name is To;
            assert(plain.headers[k].name == HeaderNameView::To);
        }
    }
}

/// The event that a command asks for is the one that it describes: the start of a call with exactly
/// the command's name, ends, port, target and resolution, whatever that decides; the answer and the
/// end with its name. No other command asks for an event.
pub proof fn events_say_what_the_commands_say(
    at: Timestamp,
    command: CallCommandView,
    call_id: Seq<char>,
    server_port: u32,
    caller_rtp: Seq<char>,
    from: Seq<char>,
    to: Seq<char>,
    dialplan: DialplanResolutionView,
)
    ensures
        event_of(
            CallCommandView::PublishStarted {
                call_id,
                server_port,
                caller_rtp,
                from,
                to,
                dialplan,
            },
            at,
        ) matches Some(event) && event matches CallEventView::Started {
            event_type,
            trace_id,
            call_id: named,
            from_uri,
            to_uri,
            timestamp,
            dialplan_resolution,
            media_info,
        } && {
            &&& event_type == "call.started"@
            &&& trace_id == call_id
            &&& named == call_id
            &&& from_uri == from
            &&& to_uri == to
            &&& timestamp == Some(at)
            &&& dialplan_resolution == Some(dialplan)
            &&& media_info matches Some(media) && media.server_rtp_port == server_port
                && media.caller_rtp_addr == caller_rtp
        },
        event_of(CallCommandView::PublishAnswered { call_id }, at) matches Some(event) && event
            matches CallEventView::Answered { call_id: named, timestamp, .. } && named == call_id
            && timestamp == Some(at),
        event_of(CallCommandView::PublishEnded { call_id }, at) matches Some(event) && event
            matches CallEventView::Ended { call_id: named, timestamp, .. } && named == call_id
            && timestamp == Some(at),
        event_of(command, at) is Some <==> command is PublishStarted || command is PublishAnswered
            || command is PublishEnded,
{
}

/// Placing a call gives exactly two commands: the call is written with all of its data, and its INVITE
/// is sent. The INVITE goes to the configured proxy and to the called URI; its body is the description
/// that was made for it, byte for byte; and its five fields name the two ends, the tag of this
/// one, the call, the request and the kind of the body.
pub proof fn placed_call_sends_its_invite(
    config: AppConfigView,
    call: OutboundReadyView,
    tag: Seq<char>,
    sdp: Seq<u8>,
)
    ensures
        ({
            let commands = outbound_commands(config, call, tag, sdp);
            let session = outbound_session(call, tag);
            &&& commands.len() == 2
            &&& exactly_one(commands, |c: CallCommandView| c is SendInvite)
            &&& commands[0] matches CallCommandView::Persist(write) && {
                &&& write.key == "b2bua:call:"@ + call.call_id
                &&& write.ttl_secs == 86400
                &&& write.data == session.data
            }
            &&& commands[1] matches CallCommandView::SendInvite { uri, headers, body, proxy_addr }
                && {
                &&& uri == call.to_uri
                &&& proxy_addr == config.proxy_sip_addr
                &&& body == sdp
                &&& headers.len() == 5
                &&& headers[0].name is From
                &&& headers[0].value == "<"@ + call.from_uri + ">"@ + ";tag="@ + tag
                &&& headers[1].name is To
                &&& headers[1].value == "<"@ + call.to_uri + ">"@
                &&& headers[2].name is CallId
                &&& headers[2].value == call.call_id
                &&& headers[3].name is CSeq
                &&& headers[3].value == "1 INVITE"@
                &&& headers[4].name is ContentType
                &&& headers[4].value == "application/sdp"@
            }
            &&& session.data.call_id == call.call_id
            &&& session.data.state == CallState::Trying
            &&& session.data.from_uri == call.from_uri
            &&& session.data.to_uri == call.to_uri
            &&& session.data.rtp_port == call.rtp_port
            &&& session.data.local_tag == tag
            &&& session.endpoint.remote is None
            &&& session.active_transaction is None
        }),
{
    let commands = outbound_commands(config, call, tag, sdp);
    let p = |c: CallCommandView| c is SendInvite;
    assert(p(commands[1]));
}

/// Where nothing can be had of the dialplan or of the media service, the caller is told which of them
/// failed; where the two help, a port is asked for in the name of the call.
pub proof fn failures_are_told_apart(
    config: AppConfigView,
    profile: AudioProfileView,
    request: SipPacketView,
    resolution: DialplanResolutionView,
    body_text: Seq<char>,
)
    ensures
        routing_commands(request, None) == seq![
            CallCommandView::SendError { code: 500, reason: "Routing Error"@ },
        ],
        allocation_commands(config, profile, body_text, None) == seq![
            CallCommandView::SendError { code: 503, reason: "Media Error"@ },
        ],
        routing_commands(request, Some(resolution)).len() == 1,
        routing_commands(request, Some(resolution))[0] matches CallCommandView::AllocatePort(asked)
            && asked.call_id == request.call_id(),
{
}

/// Each stage of an INVITE keeps what the stages before it knew, and adds what has come since.
pub proof fn stages_keep_what_they_know(
    routing: RoutingInviteView,
    action: DialplanAction,
    resolution: DialplanResolutionView,
    body_text: Seq<char>,
    port: u32,
)
    ensures
        ({
            let allocating = routed_invite(routing, action, resolution);
            let answering = with_port(allocating, body_text, port);
            let answered = answered_invite(answering);
            &&& allocating.request == routing.request
            &&& allocating.source_ip == routing.source_ip
            &&& allocating.action == action
            &&& allocating.resolution == resolution
            &&& answering.request == routing.request
            &&& answering.resolution == resolution
            &&& answering.rtp_port == port
            &&& match rtp_target_of(body_text) {
                Some(target) => answering.rtp_target == target,
                None => answering.rtp_target == routing.source_ip + ":"@ + decimal(30000),
            }
            &&& answered.call_id == routing.request.call_id()
            &&& answered.from == routing.request.from_uri()
            &&& answered.to == routing.request.to_uri()
            &&& answered.resolution == resolution
            &&& answered.rtp_port == port
            &&& answered.rtp_target == answering.rtp_target
        }),
{
}

/// A call that is placed keeps the name, the ends and the beginning of the tag that it was given. A port
/// is asked for in its name; it then keeps that port, and the description of that port is asked for,
/// once. Without a port nothing more is done.
pub proof fn placed_call_keeps_what_it_was_given(
    config: AppConfigView,
    profile: AudioProfileView,
    call_id: Seq<char>,
    from_uri: Seq<char>,
    to_uri: Seq<char>,
    tag_prefix: Seq<char>,
    port: u32,
)
    ensures
        ({
            let call = placed_call(call_id, from_uri, to_uri, tag_prefix);
            let opening = placing_commands(call_id);
            let ready = placed_with_port(call, port);
            let preparing = preparing_commands(config, profile, call, Some(port));
            &&& call.call_id == call_id
            &&& call.from_uri == from_uri
            &&& call.to_uri == to_uri
            &&& call.tag_prefix == tag_prefix
            &&& opening.len() == 1
            &&& opening[0] matches CallCommandView::AllocatePort(asked) && asked.call_id == call_id
            &&& ready.call_id == call_id
            &&& ready.from_uri == from_uri
            &&& ready.to_uri == to_uri
            &&& ready.rtp_port == port
            &&& preparing.len() == 1
            &&& preparing[0] matches CallCommandView::Prepare { tag_prefix: prefix, offer } && {
                &&& prefix == tag_prefix
                &&& offer.ip == config.public_ip
                &&& port <= 0xffff ==> offer.port == port
                &&& offer.codecs == profile.codecs
            }
            &&& preparing_commands(config, profile, call, None).len() == 0
        }),
{
}

} // verus!
