//! The two layers of the call store together: what a call leaves in memory and in the persistent
//! store, and what is found of it again.
use crate::sip::store::{
    fresh_session, in_state, persist_of, session_at, storage_key_of, with_restored, with_state,
    CallSessionDataView, CallSessionView, CallState, PersistSessionView,
};
use vstd::prelude::*;

verus! {

/// The sessions in memory, by call, and the data in the persistent store, by key.
#[verifier::ext_equal]
pub struct Layers {
    pub cache: Map<Seq<char>, CallSessionView>,
    pub stored: Map<Seq<char>, CallSessionDataView>,
}

impl Layers {
    /// Nothing is kept anywhere.
    pub open spec fn empty() -> Layers {
        Layers { cache: Map::empty(), stored: Map::empty() }
    }

    /// What the persistent store has for a call.
    pub open spec fn stored_at(self, call_id: Seq<char>) -> Option<CallSessionDataView> {
        if self.stored.contains_key(storage_key_of(call_id)) {
            Some(self.stored[storage_key_of(call_id)])
        } else {
            None
        }
    }

    /// A write to the persistent store has been done.
    pub open spec fn written(self, write: PersistSessionView) -> Layers {
        Layers { stored: self.stored.insert(write.key, write.data), ..self }
    }

    /// A call has been taken up, and written.
    pub open spec fn inserted(self, session: CallSessionView) -> Layers {
        Layers {
            cache: self.cache.insert(session.data.call_id, session),
            ..self
        }.written(persist_of(session.data.call_id, session.data))
    }

    /// A call has been moved to a state, and written.
    pub open spec fn moved(self, call_id: Seq<char>, state: CallState) -> Layers {
        let after = Layers { cache: with_state(self.cache, call_id, state), ..self };
        match session_at(self.cache, call_id) {
            Some(session) => after.written(persist_of(call_id, in_state(session, state).data)),
            None => after,
        }
    }

    /// A call has been read.
    pub open spec fn read(self, call_id: Seq<char>) -> Layers {
        Layers { cache: with_restored(self.cache, call_id, self.stored_at(call_id)), ..self }
    }

    /// What a read of a call finds.
    pub open spec fn found(self, call_id: Seq<char>) -> Option<CallSessionView> {
        session_at(self.read(call_id).cache, call_id)
    }

    /// A call has been let go.
    pub open spec fn removed(self, call_id: Seq<char>) -> Layers {
        Layers {
            cache: self.cache.remove(call_id),
            stored: self.stored.remove(storage_key_of(call_id)),
        }
    }

    /// The process has started anew: the memory is empty.
    pub open spec fn restarted(self) -> Layers {
        Layers { cache: Map::empty(), ..self }
    }

    /// What is in memory of a call agrees with what is stored of it.
    pub open spec fn agree(self) -> bool {
        forall|call_id: Seq<char>| #[trigger]
            self.cache.contains_key(call_id) ==> self.stored_at(call_id) == Some(
                self.cache[call_id].data,
            )
    }
}

/// What is kept under the name of a call is that call, in memory and in the persistent store.
pub open spec fn own_name(layers: Layers, call_id: Seq<char>) -> bool {
    &&& layers.cache.contains_key(call_id) ==> layers.cache[call_id].data.call_id == call_id
    &&& layers.stored_at(call_id) matches Some(data) ==> data.call_id == call_id
}

impl Layers {
    /// Each call is kept under its own name.
    pub open spec fn named(self) -> bool {
        forall|call_id: Seq<char>| #[trigger] own_name(self, call_id)
    }
}

/// Two calls have two keys.
pub proof fn keys_tell_calls_apart(a: Seq<char>, b: Seq<char>)
    ensures
        storage_key_of(a) == storage_key_of(b) <==> a == b,
{
    if storage_key_of(a) == storage_key_of(b) {
        let n = "b2bua:call:"@.len() as int;
        assert(storage_key_of(a).skip(n) == a);
        assert(storage_key_of(b).skip(n) == b);
    }
}

/// A call that has been taken up is found as it is, and its data outlives the process: after a
/// restart it is found with new runtime objects.
pub proof fn inserted_call_is_found(layers: Layers, session: CallSessionView)
    ensures
        layers.inserted(session).found(session.data.call_id) == Some(session),
        layers.inserted(session).restarted().found(session.data.call_id) == Some(
            fresh_session(session.data),
        ),
{
}

/// Taking a call up, moving it or letting it go changes nothing for another call.
pub proof fn other_calls_are_untouched(
    layers: Layers,
    session: CallSessionView,
    state: CallState,
    other: Seq<char>,
)
    requires
        other != session.data.call_id,
    ensures
        layers.inserted(session).found(other) == layers.found(other),
        layers.moved(session.data.call_id, state).found(other) == layers.found(other),
        layers.removed(session.data.call_id).found(other) == layers.found(other),
        layers.read(session.data.call_id).found(other) == layers.found(other),
{
    keys_tell_calls_apart(session.data.call_id, other);
}

/// A call that has been let go is not found again, not even after a restart.
pub proof fn removed_call_is_gone(layers: Layers, call_id: Seq<char>)
    ensures
        layers.removed(call_id).found(call_id) is None,
        layers.removed(call_id).restarted().found(call_id) is None,
{
}

/// A call that has been moved to a state is found in it, with the rest of its data, also after a
/// restart.
pub proof fn moved_call_is_found(layers: Layers, call_id: Seq<char>, state: CallState)
    requires
        layers.cache.contains_key(call_id),
    ensures
        layers.moved(call_id, state).found(call_id) == Some(
            in_state(layers.cache[call_id], state),
        ),
        layers.moved(call_id, state).restarted().found(call_id) == Some(
            fresh_session(in_state(layers.cache[call_id], state).data),
        ),
{
}

/// Reading a call changes nothing of what is found.
pub proof fn reading_is_stable(layers: Layers, call_id: Seq<char>)
    ensures
        layers.read(call_id).found(call_id) == layers.found(call_id),
        layers.read(call_id).read(call_id) == layers.read(call_id),
{
}

/// The layers agree from the start, and every operation keeps them so.
pub proof fn layers_stay_in_agreement(
    layers: Layers,
    session: CallSessionView,
    call_id: Seq<char>,
    state: CallState,
)
    requires
        layers.agree(),
    ensures
        Layers::empty().agree(),
        layers.inserted(session).agree(),
        layers.moved(call_id, state).agree(),
        layers.read(call_id).agree(),
        layers.removed(call_id).agree(),
        layers.restarted().agree(),
{
    assert forall|c: Seq<char>| #[trigger]
        layers.inserted(session).cache.contains_key(c) implies layers.inserted(session).stored_at(c)
        == Some(layers.inserted(session).cache[c].data) by {
        keys_tell_calls_apart(c, session.data.call_id);
    }
    assert forall|c: Seq<char>| #[trigger]
        layers.moved(call_id, state).cache.contains_key(c) implies layers.moved(
        call_id,
        state,
    ).stored_at(c) == Some(layers.moved(call_id, state).cache[c].data) by {
        keys_tell_calls_apart(c, call_id);
        assert(layers.cache.contains_key(c));
    }
    assert forall|c: Seq<char>| #[trigger]
        layers.removed(call_id).cache.contains_key(c) implies layers.removed(call_id).stored_at(c)
        == Some(layers.removed(call_id).cache[c].data) by {
        keys_tell_calls_apart(c, call_id);
        assert(layers.cache.contains_key(c));
    }
    assert forall|c: Seq<char>| #[trigger]
        layers.read(call_id).cache.contains_key(c) implies layers.read(call_id).stored_at(c)
        == Some(layers.read(call_id).cache[c].data) by {
        if c != call_id || layers.cache.contains_key(call_id) {
            assert(layers.cache.contains_key(c));
        }
    }
}

/// Each call is kept under its own name from the start, and every operation keeps it so: what is
/// read back for a call is that call.
pub proof fn calls_are_read_back_under_their_names(
    layers: Layers,
    session: CallSessionView,
    call_id: Seq<char>,
    state: CallState,
)
    requires
        layers.named(),
    ensures
        Layers::empty().named(),
        layers.inserted(session).named(),
        layers.moved(call_id, state).named(),
        layers.read(call_id).named(),
        layers.removed(call_id).named(),
        layers.restarted().named(),
        layers.found(call_id) matches Some(found) ==> found.data.call_id == call_id,
{
    assert forall|c: Seq<char>| #[trigger] own_name(layers.inserted(session), c) by {
        keys_tell_calls_apart(c, session.data.call_id);
        assert(own_name(layers, c));
        assert(own_name(layers, call_id));
    }
    assert forall|c: Seq<char>| #[trigger] own_name(layers.moved(call_id, state), c) by {
        keys_tell_calls_apart(c, call_id);
        assert(own_name(layers, c));
        assert(own_name(layers, call_id));
    }
    assert forall|c: Seq<char>| #[trigger] own_name(layers.read(call_id), c) by {
        keys_tell_calls_apart(c, call_id);
        assert(own_name(layers, c));
        assert(own_name(layers, call_id));
    }
    assert forall|c: Seq<char>| #[trigger] own_name(layers.removed(call_id), c) by {
        keys_tell_calls_apart(c, call_id);
        assert(own_name(layers, c));
        assert(own_name(layers, call_id));
    }
    assert forall|c: Seq<char>| #[trigger] own_name(layers.restarted(), c) by {
        keys_tell_calls_apart(c, call_id);
        assert(own_name(layers, c));
        assert(own_name(layers, call_id));
    }
    assert(own_name(layers.read(call_id), call_id));
}

} // verus!
