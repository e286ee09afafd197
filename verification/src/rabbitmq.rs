//! The message broker: how long it is tried, and what it is told to listen for.
use crate::sip::handlers::media::text_view;
use vstd::prelude::*;

verus! {

/// The exchange to which events go and from which commands come.
pub const EVENT_EXCHANGE: &'static str = "sentiric_events";

/// The queue of the commands to this service.
pub const COMMAND_QUEUE: &'static str = "sentiric.b2bua_service.commands";

/// The name under which requests to end a call are published.
pub const TERMINATE_KEY: &'static str = "call.terminate.request";

/// The name of this service as a consumer.
pub const CONSUMER_TAG: &'static str = "b2bua_term_consumer";

/// Events are to outlive a restart of the broker.
pub const DELIVERY_MODE: u8 = 2;

/// How often a connection is tried.
pub const MAX_CONNECT_ATTEMPTS: u32 = 10;

/// The pause between two tries of a connection.
pub const CONNECT_PAUSE_SECS: u64 = 5;

/// How often an event is published before it is given up.
pub const MAX_RETRIES: u32 = 3;

/// What follows a try of a connection.
#[derive(Debug, Clone, Copy, PartialEq, Eq, Structural)]
pub enum ConnectStep {
    Connected,
    RetryAfterSecs(u64),
    GiveUp,
}

/// What follows the try number `attempt` of a connection, counted from one.
pub open spec fn connect_step_of(attempt: nat, connected: bool) -> ConnectStep {
    if connected {
        ConnectStep::Connected
    } else if attempt >= MAX_CONNECT_ATTEMPTS {
        ConnectStep::GiveUp
    } else {
        ConnectStep::RetryAfterSecs(CONNECT_PAUSE_SECS)
    }
}

/// Decides what follows the try number `attempt`, counted from one.
pub fn connect_step(attempt: u32, connected: bool) -> (r: ConnectStep)
    ensures
        r == connect_step_of(attempt as nat, connected),
{
    if connected {
        ConnectStep::Connected
    } else if attempt >= MAX_CONNECT_ATTEMPTS {
        ConnectStep::GiveUp
    } else {
        ConnectStep::RetryAfterSecs(CONNECT_PAUSE_SECS)
    }
}

/// What follows a try to publish an event.
#[derive(Debug, Clone, Copy, PartialEq, Eq, Structural)]
pub enum PublishStep {
    Published,
    RetryAfterMillis(u64),
    Failed,
}

/// What follows the try number `attempt` to publish an event, counted from zero. The pauses grow.
pub open spec fn publish_step_of(attempt: nat, published: bool) -> PublishStep {
    if published {
        PublishStep::Published
    } else if attempt < MAX_RETRIES - 1 {
        PublishStep::RetryAfterMillis((100 * (attempt + 1)) as u64)
    } else {
        PublishStep::Failed
    }
}

/// Decides what follows the try number `attempt`, counted from zero.
pub fn publish_step(attempt: u32, published: bool) -> (r: PublishStep)
    ensures
        r == publish_step_of(attempt as nat, published),
{
    if published {
        PublishStep::Published
    } else if attempt < MAX_RETRIES - 1 {
        PublishStep::RetryAfterMillis(100 * (attempt as u64 + 1))
    } else {
        PublishStep::Failed
    }
}

/// What publishing an event came to.
pub struct PublishRun {
    pub published: bool,
    pub tries: nat,
    pub paused_millis: nat,
}

/// Publishing from the try number `attempt` on, where `accepts` says which tries the broker
/// accepts.
pub open spec fn publish_run(accepts: spec_fn(nat) -> bool, attempt: nat) -> PublishRun
    decreases MAX_RETRIES - attempt,
{
    match publish_step_of(attempt, accepts(attempt)) {
        PublishStep::Published => PublishRun { published: true, tries: 1, paused_millis: 0 },
        PublishStep::Failed => PublishRun { published: false, tries: 1, paused_millis: 0 },
        PublishStep::RetryAfterMillis(pause) => {
            let rest = publish_run(accepts, attempt + 1);
            PublishRun {
                published: rest.published,
                tries: 1 + rest.tries,
                paused_millis: pause as nat + rest.paused_millis,
            }
        },
    }
}

/// An event is published exactly where the broker accepts one of three tries. The first try that is
/// accepted is the last one made; where none is, three are made. The pause before the second is
/// 100 ms, the one before the third 200 ms.
pub proof fn event_is_tried_three_times(accepts: spec_fn(nat) -> bool)
    ensures
        ({
            let run = publish_run(accepts, 0);
            &&& run.published <==> accepts(0) || accepts(1) || accepts(2)
            &&& run.tries == if accepts(0) {
                1
            } else if accepts(1) {
                2
            } else {
                3nat
            }
            &&& run.paused_millis == if accepts(0) {
                0
            } else if accepts(1) {
                100
            } else {
                300nat
            }
        }),
{
    reveal_with_fuel(publish_run, 4);
}

/// What connecting came to.
pub struct ConnectRun {
    pub connected: bool,
    pub tries: nat,
    pub paused_secs: nat,
}

/// Connecting from the try number `attempt` on, where `accepts` says which tries the broker
/// accepts.
pub open spec fn connect_run(accepts: spec_fn(nat) -> bool, attempt: nat) -> ConnectRun
    decreases MAX_CONNECT_ATTEMPTS - attempt,
{
    match connect_step_of(attempt, accepts(attempt)) {
        ConnectStep::Connected => ConnectRun { connected: true, tries: 1, paused_secs: 0 },
        ConnectStep::GiveUp => ConnectRun { connected: false, tries: 1, paused_secs: 0 },
        ConnectStep::RetryAfterSecs(pause) => {
            let rest = connect_run(accepts, attempt + 1);
            ConnectRun {
                connected: rest.connected,
                tries: 1 + rest.tries,
                paused_secs: pause as nat + rest.paused_secs,
            }
        },
    }
}

/// Connecting from the try number `attempt` on goes by the tries that are left.
proof fn lemma_connect_run(accepts: spec_fn(nat) -> bool, attempt: nat)
    requires
        attempt <= 10,
    ensures
        ({
            let run = connect_run(accepts, attempt);
            let last = (attempt + run.tries - 1) as nat;
            &&& run.connected <==> exists|i: nat| attempt <= i <= 10 && #[trigger] accepts(i)
            &&& attempt <= last <= 10
            &&& run.connected ==> accepts(last)
            &&& !run.connected ==> last == 10
            &&& forall|i: nat| attempt <= i < last ==> !#[trigger] accepts(i)
            &&& run.paused_secs == 5 * (run.tries - 1)
        }),
    decreases 10 - attempt,
{
    if attempt < 10 {
        lemma_connect_run(accepts, attempt + 1);
    }
    assert(accepts(attempt) || !accepts(attempt));
}

/// A connection comes about exactly where the broker accepts one of ten tries. The first try that
/// is accepted is the last one made; where none is, ten are made. Between two tries there is a
/// pause of 5 s.
pub proof fn connection_is_tried_ten_times(accepts: spec_fn(nat) -> bool)
    ensures
        ({
            let run = connect_run(accepts, 1);
            &&& run.connected <==> exists|i: nat| 1 <= i <= 10 && #[trigger] accepts(i)
            &&& run.connected ==> 1 <= run.tries <= 10 && accepts(run.tries)
            &&& !run.connected ==> run.tries == 10
            &&& forall|i: nat| 1 <= i < run.tries ==> !#[trigger] accepts(i)
            &&& run.paused_secs == 5 * (run.tries - 1)
        }),
{
    lemma_connect_run(accepts, 1);
}

/// The text that a JSON object has under a name: `None` where the bytes are no JSON object, or have
/// no text under that name.
pub uninterp spec fn json_text_member(json: Seq<u8>, member: Seq<char>) -> Option<Seq<char>>;

/// `serde_json::from_slice` into a value, the value's member of that name, and its text: all three
/// depend on the bytes and the name alone. Which bytes are JSON is not stated.
#[verifier::external_body]
fn text_member(json: &[u8], member: &str) -> (r: Option<String>)
    ensures
        text_view(r) == json_text_member(json@, member@),
{
    match serde_json::from_slice::<serde_json::Value>(json) {
        Ok(value) => value[member].as_str().map(str::to_owned),
        Err(_) => None,
    }
}

/// The call that a message asks to end, if it asks for one.
pub fn termination_request(message: &[u8]) -> (r: Option<String>)
    ensures
        text_view(r) == json_text_member(message@, "callId"@),
{
    text_member(message, "callId")
}

} // verus!
