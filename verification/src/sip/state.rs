//! The states of a call.
use crate::sip::store::{no_sessions, CallStore};
use vstd::prelude::*;

verus! {

#[derive(Debug, Clone, Copy, PartialEq, Eq, Structural)]
pub enum CallState {
    Null,
    Trying,
    Ringing,
    Established,
    Terminated,
}

/// A store that holds no call.
pub fn new_store() -> (r: CallStore)
    ensures
        r@ == no_sessions(),
{
    CallStore::new()
}

} // verus!
