//! What the call logic asks of the world around it.
use crate::sip::dialplan::{DialplanResolution, DialplanResolutionView};
use crate::sip::handlers::media::{
    AllocatePortRequest, AllocatePortRequestView, ReleasePortRequest, ReleasePortRequestView,
    SdpOffer, SdpOfferView,
};
use crate::sip::packet::{headers_view, Header, HeaderView, SipPacket, SipPacketView};
use crate::sip::store::{PersistSession, PersistSessionView};
use vstd::prelude::*;

verus! {

/// One thing to be done, in the order in which commands come.
#[derive(Debug, PartialEq, Eq)]
pub enum CallCommand {
    /// Answer the request with 100 Trying.
    SendTrying,
    /// Answer the request with a plain 200 OK.
    SendAccepted,
    /// Answer the request with this 200 OK, and report whether it could be sent.
    SendAnswer(SipPacket),
    /// Answer the request with an error.
    SendError { code: u16, reason: String },
    /// Ask the dialplan service how to treat the call, and report its answer.
    ResolveDialplan { caller_contact_value: String, destination_number: String },
    /// Ask the media service for a port, and report its answer.
    AllocatePort(AllocatePortRequest),
    /// Give a port back to the media service.
    ReleasePort(ReleasePortRequest),
    /// Have the media service play to an address.
    PlayAudio { audio_uri: String, server_rtp_port: u32, rtp_target_addr: String },
    /// Make a tag with this prefix and the text of the description that says this, and report both.
    Prepare { tag_prefix: String, offer: SdpOffer },
    /// Write a call to the persistent store.
    Persist(PersistSession),
    /// Delete a key from the persistent store.
    Forget { key: String },
    /// Send an INVITE with these fields and this body to the proxy.
    SendInvite { uri: String, headers: Vec<Header>, body: Vec<u8>, proxy_addr: String },
    /// Publish that the call has been answered with success.
    PublishStarted {
        call_id: String,
        server_port: u32,
        caller_rtp: String,
        from: String,
        to: String,
        dialplan: DialplanResolution,
    },
    /// Publish that the caller has confirmed the answer.
    PublishAnswered { call_id: String },
    /// Publish that the call is over.
    PublishEnded { call_id: String },
}

pub enum CallCommandView {
    SendTrying,
    SendAccepted,
    SendAnswer(SipPacketView),
    SendError { code: u16, reason: Seq<char> },
    ResolveDialplan { caller_contact_value: Seq<char>, destination_number: Seq<char> },
    AllocatePort(AllocatePortRequestView),
    ReleasePort(ReleasePortRequestView),
    PlayAudio { audio_uri: Seq<char>, server_rtp_port: u32, rtp_target_addr: Seq<char> },
    Prepare { tag_prefix: Seq<char>, offer: SdpOfferView },
    Persist(PersistSessionView),
    Forget { key: Seq<char> },
    SendInvite {
        uri: Seq<char>,
        headers: Seq<HeaderView>,
        body: Seq<u8>,
        proxy_addr: Seq<char>,
    },
    PublishStarted {
        call_id: Seq<char>,
        server_port: u32,
        caller_rtp: Seq<char>,
        from: Seq<char>,
        to: Seq<char>,
        dialplan: DialplanResolutionView,
    },
    PublishAnswered { call_id: Seq<char> },
    PublishEnded { call_id: Seq<char> },
}

impl View for CallCommand {
    type V = CallCommandView;

    open spec fn view(&self) -> CallCommandView {
        match self {
            CallCommand::SendTrying => CallCommandView::SendTrying,
            CallCommand::SendAccepted => CallCommandView::SendAccepted,
            CallCommand::SendAnswer(p) => CallCommandView::SendAnswer(p@),
            CallCommand::SendError { code, reason } => CallCommandView::SendError {
                code: *code,
                reason: reason@,
            },
            CallCommand::ResolveDialplan { caller_contact_value, destination_number } =>
                CallCommandView::ResolveDialplan {
                caller_contact_value: caller_contact_value@,
                destination_number: destination_number@,
            },
            CallCommand::AllocatePort(request) => CallCommandView::AllocatePort(request@),
            CallCommand::ReleasePort(request) => CallCommandView::ReleasePort(request@),
            CallCommand::PlayAudio { audio_uri, server_rtp_port, rtp_target_addr } =>
                CallCommandView::PlayAudio {
                audio_uri: audio_uri@,
                server_rtp_port: *server_rtp_port,
                rtp_target_addr: rtp_target_addr@,
            },
            CallCommand::Prepare { tag_prefix, offer } => CallCommandView::Prepare {
                tag_prefix: tag_prefix@,
                offer: offer@,
            },
            CallCommand::Persist(write) => CallCommandView::Persist(write@),
            CallCommand::Forget { key } => CallCommandView::Forget { key: key@ },
            CallCommand::SendInvite { uri, headers, body, proxy_addr } =>
                CallCommandView::SendInvite {
                uri: uri@,
                headers: headers_view(headers@),
                body: body@,
                proxy_addr: proxy_addr@,
            },
            CallCommand::PublishStarted {
                call_id,
                server_port,
                caller_rtp,
                from,
                to,
                dialplan,
            } => CallCommandView::PublishStarted {
                call_id: call_id@,
                server_port: *server_port,
                caller_rtp: caller_rtp@,
                from: from@,
                to: to@,
                dialplan: dialplan@,
            },
            CallCommand::PublishAnswered { call_id } => CallCommandView::PublishAnswered {
                call_id: call_id@,
            },
            CallCommand::PublishEnded { call_id } => CallCommandView::PublishEnded {
                call_id: call_id@,
            },
        }
    }
}

pub open spec fn commands_view(commands: Seq<CallCommand>) -> Seq<CallCommandView> {
    commands.map_values(|c: CallCommand| c@)
}

/// A command is seen whole, and commands one by one in their order.
pub proof fn command_is_seen_whole(command: CallCommand, commands: Seq<CallCommand>)
    ensures
        commands_view(commands).len() == commands.len(),
        forall|i: int| 0 <= i < commands.len() ==> #[trigger] commands_view(commands)[i]
            == commands[i]@,
        match (command, command@) {
            (CallCommand::SendTrying, CallCommandView::SendTrying) => true,
            (CallCommand::SendAccepted, CallCommandView::SendAccepted) => true,
            (CallCommand::SendAnswer(a), CallCommandView::SendAnswer(b)) => b == a@,
            (
                CallCommand::SendError { code, reason },
                CallCommandView::SendError { code: c, reason: r },
            ) => c == code && r == reason@,
            (
                CallCommand::ResolveDialplan { caller_contact_value, destination_number },
                CallCommandView::ResolveDialplan {
                    caller_contact_value: c,
                    destination_number: d,
                },
            ) => c == caller_contact_value@ && d == destination_number@,
            (CallCommand::AllocatePort(a), CallCommandView::AllocatePort(b)) => b == a@,
            (CallCommand::ReleasePort(a), CallCommandView::ReleasePort(b)) => b == a@,
            (
                CallCommand::PlayAudio { audio_uri, server_rtp_port, rtp_target_addr },
                CallCommandView::PlayAudio {
                    audio_uri: u,
                    server_rtp_port: p,
                    rtp_target_addr: t,
                },
            ) => u == audio_uri@ && p == server_rtp_port && t == rtp_target_addr@,
            (
                CallCommand::Prepare { tag_prefix, offer },
                CallCommandView::Prepare { tag_prefix: t, offer: o },
            ) => t == tag_prefix@ && o == offer@,
            (CallCommand::Persist(a), CallCommandView::Persist(b)) => b == a@,
            (CallCommand::Forget { key }, CallCommandView::Forget { key: k }) => k == key@,
            (
                CallCommand::SendInvite { uri, headers, body, proxy_addr },
                CallCommandView::SendInvite { uri: u, headers: h, body: b, proxy_addr: p },
            ) => u == uri@ && h == headers_view(headers@) && b == body@ && p == proxy_addr@,
            (
                CallCommand::PublishStarted {
                    call_id,
                    server_port,
                    caller_rtp,
                    from,
                    to,
                    dialplan,
                },
                CallCommandView::PublishStarted {
                    call_id: c,
                    server_port: s,
                    caller_rtp: r,
                    from: f,
                    to: t,
                    dialplan: d,
                },
            ) => c == call_id@ && s == server_port && r == caller_rtp@ && f == from@ && t == to@ && d
                == dialplan@,
            (
                CallCommand::PublishAnswered { call_id },
                CallCommandView::PublishAnswered { call_id: c },
            ) => c == call_id@,
            (
                CallCommand::PublishEnded { call_id },
                CallCommandView::PublishEnded { call_id: c },
            ) => c == call_id@,
            _ => false,
        },
{
}

} // verus!
