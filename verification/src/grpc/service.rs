//! The calls of the service's own interface.
use crate::sip::engine::B2BuaEngine;
use crate::sip::handlers::calls::OutboundCall;
use crate::sip::handlers::command::{commands_view, CallCommand, CallCommandView};
use crate::sip::handlers::media::allocation_of;
use vstd::prelude::*;

verus! {

/// The code of a failed call.
#[derive(Debug, Clone, Copy, PartialEq, Eq, Structural)]
pub enum StatusCode {
    Internal,
    Unimplemented,
}

/// Why a call failed.
#[derive(Debug, PartialEq, Eq)]
pub struct Status {
    pub code: StatusCode,
    pub message: String,
}

/// The reply to a request to place a call.
#[derive(Debug, PartialEq, Eq)]
pub struct InitiateCallResponse {
    pub success: bool,
    pub new_call_id: String,
}

/// A lower-case hexadecimal digit.
pub open spec fn is_hex(c: char) -> bool {
    '0' as u32 <= c as u32 <= '9' as u32 || 'a' as u32 <= c as u32 <= 'f' as u32
}

/// The text of a random UUID: 36 characters, with hyphens in four places, lower-case hexadecimal
/// digits elsewhere, and the marks of version 4.
pub open spec fn is_random_uuid(s: Seq<char>) -> bool {
    &&& s.len() == 36
    &&& forall|i: int|
        0 <= i < 36 ==> if i == 8 || i == 13 || i == 18 || i == 23 {
            #[trigger] s[i] == '-'
        } else {
            is_hex(s[i])
        }
    &&& s[14] == '4'
    &&& (s[19] == '8' || s[19] == '9' || s[19] == 'a' || s[19] == 'b')
}

/// `Uuid::new_v4` of uuid, as text: a random UUID in hyphenated lower case. Which one it is depends
/// on chance, and is not stated. The call panics where the system has no random numbers to give.
#[verifier::external_body]
fn random_uuid() -> (r: String)
    ensures
        is_random_uuid(r@),
{
    uuid::Uuid::new_v4().to_string()
}

/// The name of a call that is to be placed: the requested one, or else the generated one.
pub open spec fn chosen_call_id(requested: Seq<char>, generated: Seq<char>) -> Seq<char> {
    if requested.len() == 0 {
        generated
    } else {
        requested
    }
}

/// A call is placed under the name that was asked for, whatever it is, unless none was.
pub proof fn requested_names_are_kept(requested: Seq<char>, generated: Seq<char>)
    ensures
        requested.len() > 0 ==> chosen_call_id(requested, generated) == requested,
        chosen_call_id(Seq::empty(), generated) == generated,
{
}

/// The service's own interface.
pub struct MyB2BuaService {}

impl MyB2BuaService {
    /// The interface, which keeps nothing of its own.
    pub fn new() -> (r: Self) {
        MyB2BuaService {  }
    }

    /// The name of the call to be placed: the requested one, or else a random one.
    pub fn choose_call_id(&self, requested: String) -> (r: String)
        ensures
            requested@.len() > 0 ==> r@ == requested@,
            requested@.len() == 0 ==> is_random_uuid(r@),
    {
        let generated = if requested.as_str().is_empty() {
            random_uuid()
        } else {
            String::new()
        };
        self.call_id_or(requested, generated)
    }

    /// The requested name of a call, or else the generated one.
    pub fn call_id_or(&self, requested: String, generated: String) -> (r: String)
        ensures
            r@ == chosen_call_id(requested@, generated@),
    {
        if requested.as_str().is_empty() {
            generated
        } else {
            requested
        }
    }

    /// Takes up a request to place a call: the call is named, and placed by the engine.
    pub fn initiate_call(
        &self,
        engine: &B2BuaEngine,
        requested: String,
        from_uri: &str,
        to_uri: &str,
    ) -> (r: (OutboundCall, Vec<CallCommand>))
        ensures
            requested@.len() > 0 ==> r.0@.call_id == requested@,
            requested@.len() == 0 ==> is_random_uuid(r.0@.call_id),
            r.0@.from_uri == from_uri@,
            r.0@.to_uri == to_uri@,
            r.0@.tag_prefix == "sentiric-out"@,
            commands_view(r.1@) == seq![
                CallCommandView::AllocatePort(allocation_of(r.0@.call_id)),
            ],
    {
        let call_id = self.choose_call_id(requested);
        engine.send_outbound_invite(call_id.as_str(), from_uri, to_uri)
    }

    /// The reply to a request to place the call `call_id`, where `outcome` says whether its INVITE
    /// was sent, or else why not.
    pub fn initiate_call_reply(&self, call_id: String, outcome: Result<(), String>) -> (r: Result<
        InitiateCallResponse,
        Status,
    >)
        ensures
            match (r, outcome) {
                (Ok(reply), Ok(_)) => reply.success && reply.new_call_id@ == call_id@,
                (Err(status), Err(reason)) => status.code == StatusCode::Internal
                    && status.message@ == reason@,
                _ => false,
            },
    {
        match outcome {
            Ok(_) => Ok(InitiateCallResponse { success: true, new_call_id: call_id }),
            Err(reason) => Err(Status { code: StatusCode::Internal, message: reason }),
        }
    }

    /// Calls cannot be transferred.
    pub fn transfer_call(&self) -> (r: Status)
        ensures
            r.code == StatusCode::Unimplemented,
            r.message@ == "Transfer not implemented"@,
    {
        Status {
            code: StatusCode::Unimplemented,
            message: "Transfer not implemented".to_owned(),
        }
    }
}

} // verus!
