//! The calls that are up: a cache in memory, over a store that outlives the process.
pub use crate::sip::state::CallState;
use crate::sip::transaction::{SipTransaction, SipTransactionView};
use dashmap::DashMap;
use vstd::prelude::*;

verus! {

/// How long the persistent store keeps a call that nobody ends: a day.
pub const SESSION_TTL_SECS: u64 = 86400;

/// What is kept of a call beyond the life of the process.
#[derive(Debug, PartialEq, Eq)]
pub struct CallSessionData {
    pub call_id: String,
    pub state: CallState,
    pub from_uri: String,
    pub to_uri: String,
    pub rtp_port: u32,
    pub local_tag: String,
}

pub struct CallSessionDataView {
    pub call_id: Seq<char>,
    pub state: CallState,
    pub from_uri: Seq<char>,
    pub to_uri: Seq<char>,
    pub rtp_port: u32,
    pub local_tag: Seq<char>,
}

impl View for CallSessionData {
    type V = CallSessionDataView;

    open spec fn view(&self) -> CallSessionDataView {
        CallSessionDataView {
            call_id: self.call_id@,
            state: self.state,
            from_uri: self.from_uri@,
            to_uri: self.to_uri@,
            rtp_port: self.rtp_port,
            local_tag: self.local_tag@,
        }
    }
}

impl Clone for CallSessionData {
    fn clone(&self) -> (r: Self)
        ensures
            r@ == self@,
    {
        CallSessionData {
            call_id: self.call_id.clone(),
            state: self.state,
            from_uri: self.from_uri.clone(),
            to_uri: self.to_uri.clone(),
            rtp_port: self.rtp_port,
            local_tag: self.local_tag.clone(),
        }
    }
}

/// The media endpoint of a call: the peer's address, once it is known.
#[derive(Debug, PartialEq, Eq)]
pub struct RtpEndpoint {
    pub remote: Option<String>,
}

pub struct RtpEndpointView {
    pub remote: Option<Seq<char>>,
}

impl View for RtpEndpoint {
    type V = RtpEndpointView;

    open spec fn view(&self) -> RtpEndpointView {
        RtpEndpointView {
            remote: match self.remote {
                Some(address) => Some(address@),
                None => None,
            },
        }
    }
}

impl Clone for RtpEndpoint {
    fn clone(&self) -> (r: Self)
        ensures
            r@ == self@,
    {
        RtpEndpoint {
            remote: match &self.remote {
                Some(address) => Some(address.clone()),
                None => None,
            },
        }
    }
}

/// A call as the running service knows it. The endpoint and the transaction are not persistent.
#[derive(Debug, PartialEq, Eq)]
pub struct CallSession {
    pub data: CallSessionData,
    pub endpoint: RtpEndpoint,
    pub active_transaction: Option<SipTransaction>,
}

pub struct CallSessionView {
    pub data: CallSessionDataView,
    pub endpoint: RtpEndpointView,
    pub active_transaction: Option<SipTransactionView>,
}

pub open spec fn transaction_view(tx: Option<SipTransaction>) -> Option<SipTransactionView> {
    match tx {
        Some(t) => Some(t@),
        None => None,
    }
}

impl View for CallSession {
    type V = CallSessionView;

    open spec fn view(&self) -> CallSessionView {
        CallSessionView {
            data: self.data@,
            endpoint: self.endpoint@,
            active_transaction: transaction_view(self.active_transaction),
        }
    }
}

impl Clone for CallSession {
    fn clone(&self) -> (r: Self)
        ensures
            r@ == self@,
    {
        CallSession {
            data: self.data.clone(),
            endpoint: self.endpoint.clone(),
            active_transaction: match &self.active_transaction {
                Some(t) => Some(t.clone()),
                None => None,
            },
        }
    }
}

/// A call that has only its persistent data.
pub open spec fn fresh_session(data: CallSessionDataView) -> CallSessionView {
    CallSessionView {
        data,
        endpoint: RtpEndpointView { remote: None },
        active_transaction: None,
    }
}

impl CallSession {
    /// The call with that data, its media unknown and nothing under way.
    pub fn new(data: CallSessionData) -> (r: Self)
        ensures
            r@ == fresh_session(data@),
    {
        CallSession { data, endpoint: RtpEndpoint { remote: None }, active_transaction: None }
    }
}

/// The key of a call in the persistent store.
pub open spec fn storage_key_of(call_id: Seq<char>) -> Seq<char> {
    "b2bua:call:"@ + call_id
}

/// Makes the key of a call in the persistent store.
pub fn storage_key(call_id: &str) -> (r: String)
    ensures
        r@ == storage_key_of(call_id@),
{
    let mut key = "b2bua:call:".to_owned();
    key.append(call_id);
    key
}

/// Data to be written to the persistent store.
#[derive(Debug, PartialEq, Eq)]
pub struct PersistSession {
    pub key: String,
    pub data: CallSessionData,
    pub ttl_secs: u64,
}

pub struct PersistSessionView {
    pub key: Seq<char>,
    pub data: CallSessionDataView,
    pub ttl_secs: u64,
}

impl View for PersistSession {
    type V = PersistSessionView;

    open spec fn view(&self) -> PersistSessionView {
        PersistSessionView { key: self.key@, data: self.data@, ttl_secs: self.ttl_secs }
    }
}

/// The write that keeps `data` for a day, as the call `call_id`.
pub open spec fn persist_of(call_id: Seq<char>, data: CallSessionDataView) -> PersistSessionView {
    PersistSessionView { key: storage_key_of(call_id), data, ttl_secs: SESSION_TTL_SECS }
}

/// No call is up.
pub open spec fn no_sessions() -> Map<Seq<char>, CallSessionView> {
    Map::empty()
}

#[verifier::external_type_specification]
#[verifier::external_body]
#[verifier::reject_recursive_types(K)]
#[verifier::reject_recursive_types(V)]
#[verifier::reject_recursive_types(S)]
pub struct ExDashMap<K, V, S>(DashMap<K, V, S>);

/// The sessions that a map holds, by call.
pub uninterp spec fn cached_sessions(cache: DashMap<String, CallSession>) -> Map<
    Seq<char>,
    CallSessionView,
>;

/// `DashMap::new`: the map is empty.
#[verifier::external_body]
fn cache_new() -> (cache: DashMap<String, CallSession>)
    ensures
        cached_sessions(cache) == no_sessions(),
{
    DashMap::new()
}

/// `DashMap::insert`: the value stands at the key, in place of the one that stood there, which is
/// returned. The map is borrowed for writing, so that nobody else changes it.
#[verifier::external_body]
fn cache_insert(
    cache: &mut DashMap<String, CallSession>,
    call_id: String,
    session: CallSession,
) -> (replaced: Option<CallSession>)
    ensures
        cached_sessions(*final(cache)) == cached_sessions(*old(cache)).insert(call_id@, session@),
        match replaced {
            Some(s) => cached_sessions(*old(cache)).contains_pair(call_id@, s@),
            None => !cached_sessions(*old(cache)).contains_key(call_id@),
        },
{
    cache.insert(call_id, session)
}

/// `DashMap::get`: the value at the key, if there is one. The session is copied out of the map.
#[verifier::external_body]
fn cache_get(cache: &DashMap<String, CallSession>, call_id: &str) -> (found: Option<CallSession>)
    ensures
        match found {
            Some(s) => cached_sessions(*cache).contains_pair(call_id@, s@),
            None => !cached_sessions(*cache).contains_key(call_id@),
        },
{
    cache.get(call_id).map(|entry| entry.value().clone())
}

/// `DashMap::remove`: the value at the key, if there is one, leaves the map and is returned.
#[verifier::external_body]
fn cache_remove(cache: &mut DashMap<String, CallSession>, call_id: &str) -> (removed: Option<
    CallSession,
>)
    ensures
        cached_sessions(*final(cache)) == cached_sessions(*old(cache)).remove(call_id@),
        match removed {
            Some(s) => cached_sessions(*old(cache)).contains_pair(call_id@, s@),
            None => !cached_sessions(*old(cache)).contains_key(call_id@),
        },
{
    cache.remove(call_id).map(|entry| entry.1)
}

/// The session of a call in a map of sessions.
pub open spec fn session_at(
    sessions: Map<Seq<char>, CallSessionView>,
    call_id: Seq<char>,
) -> Option<CallSessionView> {
    if sessions.contains_key(call_id) {
        Some(sessions[call_id])
    } else {
        None
    }
}

pub open spec fn session_view(session: Option<CallSession>) -> Option<CallSessionView> {
    match session {
        Some(s) => Some(s@),
        None => None,
    }
}

pub open spec fn data_view(data: Option<CallSessionData>) -> Option<CallSessionDataView> {
    match data {
        Some(d) => Some(d@),
        None => None,
    }
}

pub open spec fn persist_view(write: Option<PersistSession>) -> Option<PersistSessionView> {
    match write {
        Some(w) => Some(w@),
        None => None,
    }
}

/// `session` in another state.
pub open spec fn in_state(session: CallSessionView, state: CallState) -> CallSessionView {
    CallSessionView { data: CallSessionDataView { state, ..session.data }, ..session }
}

/// The sessions after a call has moved to a state. An unknown call changes nothing.
pub open spec fn with_state(
    sessions: Map<Seq<char>, CallSessionView>,
    call_id: Seq<char>,
    state: CallState,
) -> Map<Seq<char>, CallSessionView> {
    if sessions.contains_key(call_id) {
        sessions.insert(call_id, in_state(sessions[call_id], state))
    } else {
        sessions
    }
}

/// The sessions after a read, where `stored` is what the persistent store has for the call.
pub open spec fn with_restored(
    sessions: Map<Seq<char>, CallSessionView>,
    call_id: Seq<char>,
    stored: Option<CallSessionDataView>,
) -> Map<Seq<char>, CallSessionView> {
    if !sessions.contains_key(call_id) && stored is Some {
        sessions.insert(call_id, fresh_session(stored->0))
    } else {
        sessions
    }
}

/// The calls that are up. Its view maps each call to its session; the persistent store is written
/// and read by whoever holds the connection, as the methods say.
pub struct CallStore {
    local_cache: DashMap<String, CallSession>,
}

impl View for CallStore {
    type V = Map<Seq<char>, CallSessionView>;

    closed spec fn view(&self) -> Map<Seq<char>, CallSessionView> {
        cached_sessions(self.local_cache)
    }
}

impl CallStore {
    /// A store that holds no call.
    pub fn new() -> (r: Self)
        ensures
            r@ == no_sessions(),
    {
        CallStore { local_cache: cache_new() }
    }

    /// Takes up a call, and says what is to be written to the persistent store.
    pub fn insert(&mut self, session: CallSession) -> (write: PersistSession)
        ensures
            final(self)@ == old(self)@.insert(session@.data.call_id, session@),
            write@ == persist_of(session@.data.call_id, session@.data),
    {
        let call_id = session.data.call_id.clone();
        let data = session.data.clone();
        let key = storage_key(call_id.as_str());
        cache_insert(&mut self.local_cache, call_id, session);
        PersistSession { key, data, ttl_secs: SESSION_TTL_SECS }
    }

    /// Moves a cached call to a state, and says what is to be written to the persistent store.
    pub fn update_state(&mut self, call_id: &str, new_state: CallState) -> (write: Option<
        PersistSession,
    >)
        ensures
            final(self)@ == with_state(old(self)@, call_id@, new_state),
            persist_view(write) == match session_at(old(self)@, call_id@) {
                Some(s) => Some(persist_of(call_id@, in_state(s, new_state).data)),
                None => None,
            },
    {
        match cache_get(&self.local_cache, call_id) {
            Some(found) => {
                let mut session = found;
                session.data.state = new_state;
                let data = session.data.clone();
                let ghost moved = in_state(found@, new_state);
                assert(session@ == moved);
                cache_insert(&mut self.local_cache, call_id.to_owned(), session);
                Some(
                    PersistSession { key: storage_key(call_id), data, ttl_secs: SESSION_TTL_SECS },
                )
            },
            None => None,
        }
    }

    /// The cached session of a call. Where there is none, the persistent store is to be asked for
    /// `storage_key(call_id)`, and `get` to be given its answer.
    pub fn cached(&self, call_id: &str) -> (found: Option<CallSession>)
        ensures
            session_view(found) == session_at(self@, call_id@),
    {
        cache_get(&self.local_cache, call_id)
    }

    /// The session of a call: the cached one, or else one made anew of what the persistent store
    /// has for the call, which is then cached.
    pub fn get(&mut self, call_id: &str, stored: Option<CallSessionData>) -> (found: Option<
        CallSession,
    >)
        ensures
            final(self)@ == with_restored(old(self)@, call_id@, data_view(stored)),
            session_view(found) == session_at(final(self)@, call_id@),
    {
        match cache_get(&self.local_cache, call_id) {
            Some(found) => Some(found),
            None => match stored {
                Some(data) => {
                    let session = CallSession::new(data);
                    let copy = session.clone();
                    cache_insert(&mut self.local_cache, call_id.to_owned(), session);
                    Some(copy)
                },
                None => None,
            },
        }
    }

    /// Lets a call go. The key is to be deleted from the persistent store, whether or not the call
    /// was cached.
    pub fn remove(&mut self, call_id: &str) -> (r: (String, Option<CallSession>))
        ensures
            final(self)@ == old(self)@.remove(call_id@),
            r.0@ == storage_key_of(call_id@),
            session_view(r.1) == session_at(old(self)@, call_id@),
    {
        let key = storage_key(call_id);
        let removed = cache_remove(&mut self.local_cache, call_id);
        (key, removed)
    }
}

/// What is written of a call: all of its data, under a key that ends with its name, for a day.
pub proof fn calls_are_written_whole(call_id: Seq<char>, data: CallSessionDataView)
    ensures
        persist_of(call_id, data).data == data,
        persist_of(call_id, data).ttl_secs == 24 * 60 * 60,
        persist_of(call_id, data).key == storage_key_of(call_id),
        storage_key_of(call_id).take(11) == "b2bua:call:"@,
        storage_key_of(call_id).skip(11) == call_id,
{
    reveal_strlit("b2bua:call:");
    assert(storage_key_of(call_id).take(11) == "b2bua:call:"@);
    assert(storage_key_of(call_id).skip(11) == call_id);
}

/// Moving a call to a state changes that state and nothing else, of that call and no other; moving a
/// call that is not up changes nothing.
pub proof fn moving_changes_only_the_state(
    sessions: Map<Seq<char>, CallSessionView>,
    call_id: Seq<char>,
    state: CallState,
    other: Seq<char>,
)
    ensures
        ({
            let after = with_state(sessions, call_id, state);
            &&& after.dom() == sessions.dom()
            &&& sessions.contains_key(call_id) ==> {
                &&& after[call_id].data.state == state
                &&& after[call_id].data.call_id == sessions[call_id].data.call_id
                &&& after[call_id].data.from_uri == sessions[call_id].data.from_uri
                &&& after[call_id].data.to_uri == sessions[call_id].data.to_uri
                &&& after[call_id].data.rtp_port == sessions[call_id].data.rtp_port
                &&& after[call_id].data.local_tag == sessions[call_id].data.local_tag
                &&& after[call_id].endpoint == sessions[call_id].endpoint
                &&& after[call_id].active_transaction == sessions[call_id].active_transaction
                &&& in_state(sessions[call_id], state) == after[call_id]
            }
            &&& other != call_id && sessions.contains_key(other) ==> after[other] == sessions[other]
        }),
{
    assert(with_state(sessions, call_id, state).dom() == sessions.dom());
}

/// A call is read from memory where it is there, and else made of what is stored of it, with nothing
/// of its runtime objects; other calls are not touched. A call that is nowhere is not found.
pub proof fn memory_comes_before_the_store(
    sessions: Map<Seq<char>, CallSessionView>,
    call_id: Seq<char>,
    stored: Option<CallSessionDataView>,
    other: Seq<char>,
)
    ensures
        ({
            let after = with_restored(sessions, call_id, stored);
            let found = session_at(after, call_id);
            &&& sessions.contains_key(call_id) ==> after == sessions && found == Some(
                sessions[call_id],
            )
            &&& !sessions.contains_key(call_id) ==> match stored {
                Some(data) => {
                    &&& found is Some
                    &&& found->0.data == data
                    &&& found->0.endpoint.remote is None
                    &&& found->0.active_transaction is None
                    &&& found == Some(fresh_session(data))
                },
                None => found is None && after == sessions,
            }
            &&& other != call_id ==> session_at(after, other) == session_at(sessions, other)
            &&& session_at(sessions, other) is Some <==> sessions.contains_key(other)
            &&& !no_sessions().contains_key(other)
        }),
{
}

/// A call is seen whole: its data, its media, its transaction, and what is written of it.
pub proof fn call_is_seen_whole(session: CallSession, write: PersistSession)
    ensures
        session@.data.call_id == session.data.call_id@,
        session@.data.from_uri == session.data.from_uri@,
        session@.data.to_uri == session.data.to_uri@,
        session@.data.local_tag == session.data.local_tag@,
        session@.data.state == session.data.state,
        session@.data.rtp_port == session.data.rtp_port,
        session.endpoint.remote is None <==> session@.endpoint.remote is None,
        session.endpoint.remote matches Some(address) ==> session@.endpoint.remote == Some(address@),
        session.active_transaction is None <==> session@.active_transaction is None,
        session.active_transaction matches Some(tx) ==> session@.active_transaction == Some(tx@),
        write@.key == write.key@,
        write@.data == write.data@,
        write@.ttl_secs == write.ttl_secs,
        session_view(Some(session)) == Some(session@),
        session_view(None) is None,
        data_view(Some(write.data)) == Some(write.data@),
        data_view(None) is None,
        persist_view(Some(write)) == Some(write@),
        persist_view(None) is None,
{
}

} // verus!
