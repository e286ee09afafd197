use b2bua::sip::packet::{Method, SipPacket};
use b2bua::sip::state::new_store;
use b2bua::sip::store::{
    storage_key, CallSession, CallSessionData, CallState, CallStore, SESSION_TTL_SECS,
};
use b2bua::sip::transaction::SipTransaction;

fn data(call_id: &str, port: u32) -> CallSessionData {
    CallSessionData {
        call_id: call_id.to_string(),
        state: CallState::Trying,
        from_uri: "sip:a@x".to_string(),
        to_uri: "sip:b@y".to_string(),
        rtp_port: port,
        local_tag: "tag".to_string(),
    }
}

fn invite() -> SipPacket {
    SipPacket {
        is_request: true,
        method: Method::Invite,
        uri: "sip:b@y".to_string(),
        status_code: 0,
        reason: String::new(),
        headers: vec![],
        body: vec![1, 2],
    }
}

fn busy(call_id: &str, port: u32) -> CallSession {
    let mut session = CallSession::new(data(call_id, port));
    session.active_transaction = Some(SipTransaction::new(invite()));
    session
}

#[test]
fn new_session_has_no_runtime_objects() {
    let s = CallSession::new(data("c", 7));
    assert_eq!(s.data, data("c", 7));
    assert_eq!(s.endpoint.remote, None);
    assert_eq!(s.active_transaction, None);
}

#[test]
fn inserted_session_is_found_and_written() {
    let mut store = CallStore::new();
    let write = store.insert(busy("c1", 7));
    assert_eq!(write.key, "b2bua:call:c1");
    assert_eq!(write.data, data("c1", 7));
    assert_eq!(write.ttl_secs, 86400);
    assert_eq!(SESSION_TTL_SECS, 86400);
    assert_eq!(store.cached("c1"), Some(busy("c1", 7)));
    assert_eq!(store.cached("c2"), None);
    assert_eq!(store.get("c1", Some(data("c1", 9))), Some(busy("c1", 7)));
}

#[test]
fn second_insert_replaces_the_first() {
    let mut store = new_store();
    store.insert(busy("c1", 7));
    store.insert(busy("c2", 8));
    store.insert(busy("c1", 9));
    assert_eq!(store.cached("c1"), Some(busy("c1", 9)));
    assert_eq!(store.cached("c2"), Some(busy("c2", 8)));
}

#[test]
fn state_is_updated_and_written() {
    let mut store = CallStore::new();
    store.insert(busy("c1", 7));
    let write = store.update_state("c1", CallState::Established).unwrap();
    let mut expected = busy("c1", 7);
    expected.data.state = CallState::Established;
    assert_eq!(store.cached("c1"), Some(expected.clone()));
    assert_eq!(write.data, expected.data);
    assert_eq!(write.key, storage_key("c1"));
    assert_eq!(write.ttl_secs, 86400);
    assert_eq!(store.update_state("nobody", CallState::Ringing), None);
    assert_eq!(store.cached("nobody"), None);
}

#[test]
fn stored_session_is_restored_without_runtime_objects() {
    let mut store = CallStore::new();
    assert_eq!(store.get("c1", None), None);
    assert_eq!(store.get("c1", Some(data("c1", 7))), Some(CallSession::new(data("c1", 7))));
    assert_eq!(store.cached("c1"), Some(CallSession::new(data("c1", 7))));
}

#[test]
fn removed_session_is_gone() {
    let mut store = CallStore::new();
    store.insert(busy("c1", 7));
    store.insert(busy("c2", 8));
    let (key, removed) = store.remove("c1");
    assert_eq!(key, "b2bua:call:c1");
    assert_eq!(removed, Some(busy("c1", 7)));
    assert_eq!(store.cached("c1"), None);
    assert_eq!(store.cached("c2"), Some(busy("c2", 8)));
    assert_eq!(store.remove("c1"), ("b2bua:call:c1".to_string(), None));
}

#[test]
fn keys_of_different_calls_differ() {
    assert_eq!(storage_key(""), "b2bua:call:");
    assert_ne!(storage_key("a"), storage_key("b"));
}

#[test]
fn transaction_keeps_the_last_response() {
    let mut tx = SipTransaction::new(invite());
    assert_eq!(tx.response, None);
    let mut answer = invite();
    answer.is_request = false;
    answer.status_code = 200;
    tx.update_with_response(answer.clone());
    assert_eq!(tx.request, invite());
    assert_eq!(tx.response, Some(answer));
    assert_eq!(tx.clone(), tx);
}
