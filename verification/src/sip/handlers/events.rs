//! The events by which the platform learns of calls.
use crate::sip::dialplan::{resolution_view, DialplanResolution, DialplanResolutionView};
use vstd::prelude::*;

verus! {

/// A moment: seconds since 1970, and nanoseconds.
#[derive(Debug, Clone, Copy, PartialEq, Eq, Structural)]
pub struct Timestamp {
    pub seconds: i64,
    pub nanos: i32,
}

impl Timestamp {
    /// The nanoseconds are a fraction of a second.
    pub open spec fn normal(self) -> bool {
        0 <= self.nanos < 1_000_000_000
    }
}

/// `Timestamp::from` of prost-types on the system's time: the nanoseconds are a fraction of a
/// second. Which moment it is depends on the clock, and is not stated.
#[verifier::external_body]
fn now() -> (t: Timestamp)
    ensures
        t.normal(),
{
    let t = prost_types::Timestamp::from(std::time::SystemTime::now());
    Timestamp { seconds: t.seconds, nanos: t.nanos }
}

/// The media side of a call.
#[derive(Debug, PartialEq, Eq)]
pub struct MediaInfo {
    pub caller_rtp_addr: String,
    pub server_rtp_port: u32,
}

/// A call has been answered with success.
#[derive(Debug, PartialEq, Eq)]
pub struct CallStartedEvent {
    pub event_type: String,
    pub trace_id: String,
    pub call_id: String,
    pub from_uri: String,
    pub to_uri: String,
    pub timestamp: Option<Timestamp>,
    pub dialplan_resolution: Option<DialplanResolution>,
    pub media_info: Option<MediaInfo>,
}

/// The caller has confirmed the answer.
#[derive(Debug, PartialEq, Eq)]
pub struct CallAnsweredEvent {
    pub event_type: String,
    pub trace_id: String,
    pub call_id: String,
    pub timestamp: Option<Timestamp>,
}

/// A call is over.
#[derive(Debug, PartialEq, Eq)]
pub struct CallEndedEvent {
    pub event_type: String,
    pub trace_id: String,
    pub call_id: String,
    pub timestamp: Option<Timestamp>,
    pub reason: String,
}

/// An event of a call.
#[derive(Debug, PartialEq, Eq)]
pub enum CallEvent {
    Started(CallStartedEvent),
    Answered(CallAnsweredEvent),
    Ended(CallEndedEvent),
}

pub struct MediaInfoView {
    pub caller_rtp_addr: Seq<char>,
    pub server_rtp_port: u32,
}

/// An event of a call, as texts.
pub enum CallEventView {
    Started {
        event_type: Seq<char>,
        trace_id: Seq<char>,
        call_id: Seq<char>,
        from_uri: Seq<char>,
        to_uri: Seq<char>,
        timestamp: Option<Timestamp>,
        dialplan_resolution: Option<DialplanResolutionView>,
        media_info: Option<MediaInfoView>,
    },
    Answered {
        event_type: Seq<char>,
        trace_id: Seq<char>,
        call_id: Seq<char>,
        timestamp: Option<Timestamp>,
    },
    Ended {
        event_type: Seq<char>,
        trace_id: Seq<char>,
        call_id: Seq<char>,
        timestamp: Option<Timestamp>,
        reason: Seq<char>,
    },
}

impl View for CallEvent {
    type V = CallEventView;

    open spec fn view(&self) -> CallEventView {
        match self {
            CallEvent::Started(e) => CallEventView::Started {
                event_type: e.event_type@,
                trace_id: e.trace_id@,
                call_id: e.call_id@,
                from_uri: e.from_uri@,
                to_uri: e.to_uri@,
                timestamp: e.timestamp,
                dialplan_resolution: resolution_view(e.dialplan_resolution),
                media_info: match e.media_info {
                    Some(m) => Some(
                        MediaInfoView {
                            caller_rtp_addr: m.caller_rtp_addr@,
                            server_rtp_port: m.server_rtp_port,
                        },
                    ),
                    None => None,
                },
            },
            CallEvent::Answered(e) => CallEventView::Answered {
                event_type: e.event_type@,
                trace_id: e.trace_id@,
                call_id: e.call_id@,
                timestamp: e.timestamp,
            },
            CallEvent::Ended(e) => CallEventView::Ended {
                event_type: e.event_type@,
                trace_id: e.trace_id@,
                call_id: e.call_id@,
                timestamp: e.timestamp,
                reason: e.reason@,
            },
        }
    }
}

pub open spec fn event_view(event: Option<CallEvent>) -> Option<CallEventView> {
    match event {
        Some(e) => Some(e@),
        None => None,
    }
}

impl CallEventView {
    /// The name under which the event is published.
    pub open spec fn routing_key(self) -> Seq<char> {
        match self {
            CallEventView::Started { .. } => "call.started"@,
            CallEventView::Answered { .. } => "call.answered"@,
            CallEventView::Ended { .. } => "call.ended"@,
        }
    }

    pub open spec fn event_type(self) -> Seq<char> {
        match self {
            CallEventView::Started { event_type, .. } => event_type,
            CallEventView::Answered { event_type, .. } => event_type,
            CallEventView::Ended { event_type, .. } => event_type,
        }
    }

    pub open spec fn trace_id(self) -> Seq<char> {
        match self {
            CallEventView::Started { trace_id, .. } => trace_id,
            CallEventView::Answered { trace_id, .. } => trace_id,
            CallEventView::Ended { trace_id, .. } => trace_id,
        }
    }

    pub open spec fn call_id(self) -> Seq<char> {
        match self {
            CallEventView::Started { call_id, .. } => call_id,
            CallEventView::Answered { call_id, .. } => call_id,
            CallEventView::Ended { call_id, .. } => call_id,
        }
    }
}

impl CallEvent {
    /// The name under which the event is published.
    pub fn routing_key(&self) -> (r: &'static str)
        ensures
            r@ == self@.routing_key(),
    {
        match self {
            CallEvent::Started(_) => "call.started",
            CallEvent::Answered(_) => "call.answered",
            CallEvent::Ended(_) => "call.ended",
        }
    }
}

/// The event that a call has been answered with success.
pub open spec fn call_started(
    at: Timestamp,
    call_id: Seq<char>,
    server_port: u32,
    caller_rtp: Seq<char>,
    from: Seq<char>,
    to: Seq<char>,
    dialplan: Option<DialplanResolutionView>,
) -> CallEventView {
    CallEventView::Started {
        event_type: "call.started"@,
        trace_id: call_id,
        call_id,
        from_uri: from,
        to_uri: to,
        timestamp: Some(at),
        dialplan_resolution: dialplan,
        media_info: Some(
            MediaInfoView { caller_rtp_addr: caller_rtp, server_rtp_port: server_port },
        ),
    }
}

/// The event that the caller has confirmed the answer.
pub open spec fn call_answered(at: Timestamp, call_id: Seq<char>) -> CallEventView {
    CallEventView::Answered {
        event_type: "call.answered"@,
        trace_id: call_id,
        call_id,
        timestamp: Some(at),
    }
}

/// The event that a call is over.
pub open spec fn call_ended(at: Timestamp, call_id: Seq<char>) -> CallEventView {
    CallEventView::Ended {
        event_type: "call.ended"@,
        trace_id: call_id,
        call_id,
        timestamp: Some(at),
        reason: "normal_clearing"@,
    }
}

/// Makes the event that a call has been answered with success.
pub fn call_started_event(
    at: Timestamp,
    call_id: &str,
    server_port: u32,
    caller_rtp: &str,
    from: &str,
    to: &str,
    dialplan: Option<DialplanResolution>,
) -> (r: CallEvent)
    ensures
        r@ == call_started(
            at,
            call_id@,
            server_port,
            caller_rtp@,
            from@,
            to@,
            resolution_view(dialplan),
        ),
{
    CallEvent::Started(
        CallStartedEvent {
            event_type: "call.started".to_owned(),
            trace_id: call_id.to_owned(),
            call_id: call_id.to_owned(),
            from_uri: from.to_owned(),
            to_uri: to.to_owned(),
            timestamp: Some(at),
            dialplan_resolution: dialplan,
            media_info: Some(
                MediaInfo { caller_rtp_addr: caller_rtp.to_owned(), server_rtp_port: server_port },
            ),
        },
    )
}

/// Makes the event that the caller has confirmed the answer.
pub fn call_answered_event(at: Timestamp, call_id: &str) -> (r: CallEvent)
    ensures
        r@ == call_answered(at, call_id@),
{
    CallEvent::Answered(
        CallAnsweredEvent {
            event_type: "call.answered".to_owned(),
            trace_id: call_id.to_owned(),
            call_id: call_id.to_owned(),
            timestamp: Some(at),
        },
    )
}

/// Makes the event that a call is over.
pub fn call_ended_event(at: Timestamp, call_id: &str) -> (r: CallEvent)
    ensures
        r@ == call_ended(at, call_id@),
{
    CallEvent::Ended(
        CallEndedEvent {
            event_type: "call.ended".to_owned(),
            trace_id: call_id.to_owned(),
            call_id: call_id.to_owned(),
            timestamp: Some(at),
            reason: "normal_clearing".to_owned(),
        },
    )
}

/// Makes the events, each of the moment in which it is made.
pub struct EventManager {}

impl EventManager {
    /// A manager, which keeps nothing of its own.
    pub fn new() -> (r: Self) {
        EventManager {  }
    }

    /// The event that a call has been answered with success, of this moment.
    pub fn publish_call_started(
        &self,
        call_id: &str,
        server_port: u32,
        caller_rtp: &str,
        from: &str,
        to: &str,
        dialplan: Option<DialplanResolution>,
    ) -> (r: CallEvent)
        ensures
            exists|at: Timestamp|
                at.normal() && r@ == #[trigger] call_started(
                    at,
                    call_id@,
                    server_port,
                    caller_rtp@,
                    from@,
                    to@,
                    resolution_view(dialplan),
                ),
    {
        call_started_event(now(), call_id, server_port, caller_rtp, from, to, dialplan)
    }

    /// The event that the caller has confirmed the answer, of this moment.
    pub fn publish_call_answered(&self, call_id: &str) -> (r: CallEvent)
        ensures
            exists|at: Timestamp| at.normal() && r@ == #[trigger] call_answered(at, call_id@),
    {
        call_answered_event(now(), call_id)
    }

    /// The event that a call is over, of this moment.
    pub fn publish_call_ended(&self, call_id: &str) -> (r: CallEvent)
        ensures
            exists|at: Timestamp| at.normal() && r@ == #[trigger] call_ended(at, call_id@),
    {
        call_ended_event(now(), call_id)
    }
}

/// Every event is traced by its call, and its type is the name under which it is published.
pub proof fn events_are_traced_by_their_call(
    at: Timestamp,
    call_id: Seq<char>,
    server_port: u32,
    caller_rtp: Seq<char>,
    from: Seq<char>,
    to: Seq<char>,
    dialplan: Option<DialplanResolutionView>,
)
    ensures
        forall|event: CallEventView|
            (event == call_started(at, call_id, server_port, caller_rtp, from, to, dialplan)
                || event == call_answered(at, call_id) || event == call_ended(at, call_id)) ==> {
                &&& #[trigger] event.call_id() == call_id
                &&& event.trace_id() == call_id
                &&& event.event_type() == event.routing_key()
            },
{
}

/// The start of a call says what happened to it: its name, its two ends, the moment, the whole of what
/// the dialplan decided, whatever that was, and the two ends of its audio.
pub proof fn start_says_everything(
    at: Timestamp,
    call_id: Seq<char>,
    server_port: u32,
    caller_rtp: Seq<char>,
    from: Seq<char>,
    to: Seq<char>,
    dialplan: Option<DialplanResolutionView>,
)
    ensures
        call_started(at, call_id, server_port, caller_rtp, from, to, dialplan) matches
            CallEventView::Started {
            event_type,
            trace_id,
            call_id: named,
            from_uri,
            to_uri,
            timestamp,
            dialplan_resolution,
            media_info,
        } && {
            &&& event_type == "call.started"@
            &&& trace_id == call_id
            &&& named == call_id
            &&& from_uri == from
            &&& to_uri == to
            &&& timestamp == Some(at)
            &&& dialplan_resolution == dialplan
            &&& media_info is Some
            &&& media_info->0.server_rtp_port == server_port
            &&& media_info->0.caller_rtp_addr == caller_rtp
        },
{
}

/// The other two events name their call and their moment, and the end its reason; each event is
/// published under its own name.
pub proof fn answer_and_end_name_their_call(at: Timestamp, call_id: Seq<char>, event: CallEventView)
    ensures
        call_answered(at, call_id) matches CallEventView::Answered {
            event_type,
            trace_id,
            call_id: named,
            timestamp,
        } && {
            &&& event_type == "call.answered"@
            &&& trace_id == call_id
            &&& named == call_id
            &&& timestamp == Some(at)
        },
        call_ended(at, call_id) matches CallEventView::Ended {
            event_type,
            trace_id,
            call_id: named,
            timestamp,
            reason,
        } && {
            &&& event_type == "call.ended"@
            &&& trace_id == call_id
            &&& named == call_id
            &&& timestamp == Some(at)
            &&& reason == "normal_clearing"@
        },
        event is Started ==> event.routing_key() == "call.started"@,
        event is Answered ==> event.routing_key() == "call.answered"@,
        event is Ended ==> event.routing_key() == "call.ended"@,
{
}

/// An event is seen whole.
pub proof fn event_is_seen_whole(
    started: CallStartedEvent,
    answered: CallAnsweredEvent,
    ended: CallEndedEvent,
)
    ensures
        CallEvent::Started(started)@ matches CallEventView::Started {
            event_type,
            trace_id,
            call_id,
            from_uri,
            to_uri,
            timestamp,
            dialplan_resolution,
            media_info,
        } && {
            &&& event_type == started.event_type@
            &&& trace_id == started.trace_id@
            &&& call_id == started.call_id@
            &&& from_uri == started.from_uri@
            &&& to_uri == started.to_uri@
            &&& timestamp == started.timestamp
            &&& dialplan_resolution == resolution_view(started.dialplan_resolution)
            &&& media_info is Some <==> started.media_info is Some
            &&& started.media_info matches Some(media) ==> media_info->0.caller_rtp_addr
                == media.caller_rtp_addr@ && media_info->0.server_rtp_port == media.server_rtp_port
        },
        CallEvent::Answered(answered)@ matches CallEventView::Answered {
            event_type,
            trace_id,
            call_id,
            timestamp,
        } && {
            &&& event_type == answered.event_type@
            &&& trace_id == answered.trace_id@
            &&& call_id == answered.call_id@
            &&& timestamp == answered.timestamp
        },
        CallEvent::Ended(ended)@ matches CallEventView::Ended {
            event_type,
            trace_id,
            call_id,
            timestamp,
            reason,
        } && {
            &&& event_type == ended.event_type@
            &&& trace_id == ended.trace_id@
            &&& call_id == ended.call_id@
            &&& timestamp == ended.timestamp
            &&& reason == ended.reason@
        },
        event_view(Some(CallEvent::Ended(ended))) == Some(CallEvent::Ended(ended)@),
        event_view(Some(CallEvent::Answered(answered))) == Some(CallEvent::Answered(answered)@),
        event_view(Some(CallEvent::Started(started))) == Some(CallEvent::Started(started)@),
        event_view(None) is None,
{
}

} // verus!
