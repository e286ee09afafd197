//! The server transaction that a call keeps, and what a transaction check decides on a packet.
use crate::sip::packet::{SipPacket, SipPacketView};
use vstd::prelude::*;

verus! {

/// A request and the last response that it was given.
#[derive(Debug, PartialEq, Eq)]
pub struct SipTransaction {
    pub request: SipPacket,
    pub response: Option<SipPacket>,
}

pub struct SipTransactionView {
    pub request: SipPacketView,
    pub response: Option<SipPacketView>,
}

pub open spec fn packet_view(packet: Option<SipPacket>) -> Option<SipPacketView> {
    match packet {
        Some(p) => Some(p@),
        None => None,
    }
}

impl View for SipTransaction {
    type V = SipTransactionView;

    open spec fn view(&self) -> SipTransactionView {
        SipTransactionView { request: self.request@, response: packet_view(self.response) }
    }
}

impl Clone for SipTransaction {
    fn clone(&self) -> (r: Self)
        ensures
            r@ == self@,
    {
        let response = match &self.response {
            Some(p) => Some(p.clone()),
            None => None,
        };
        SipTransaction { request: self.request.clone(), response }
    }
}

impl SipTransaction {
    /// A transaction that has not been answered.
    pub fn new(request: SipPacket) -> (r: Self)
        ensures
            r@ == (SipTransactionView { request: request@, response: None }),
    {
        SipTransaction { request, response: None }
    }

    /// Keeps the response that was sent.
    pub fn update_with_response(&mut self, response: SipPacket)
        ensures
            final(self)@ == (SipTransactionView {
                request: old(self)@.request,
                response: Some(response@),
            }),
    {
        self.response = Some(response);
    }
}

/// What a transaction check decides on a packet of a known call.
#[derive(Debug, PartialEq, Eq)]
pub enum TransactionAction {
    /// The packet repeats an answered request: send that answer again.
    RetransmitResponse(SipPacket),
    /// The packet needs no answer.
    Ignore,
    /// The packet is new.
    ForwardToApp,
}

pub enum TransactionActionView {
    RetransmitResponse(SipPacketView),
    Ignore,
    ForwardToApp,
}

impl View for TransactionAction {
    type V = TransactionActionView;

    open spec fn view(&self) -> TransactionActionView {
        match self {
            TransactionAction::RetransmitResponse(p) => TransactionActionView::RetransmitResponse(
                p@,
            ),
            TransactionAction::Ignore => TransactionActionView::Ignore,
            TransactionAction::ForwardToApp => TransactionActionView::ForwardToApp,
        }
    }
}

/// A transaction is seen whole, and so is what a check says.
pub proof fn transaction_is_seen_whole(tx: SipTransaction, packet: SipPacket)
    ensures
        tx@.request == tx.request@,
        tx@.response is Some <==> tx.response is Some,
        tx.response matches Some(response) ==> tx@.response == Some(response@),
        TransactionAction::RetransmitResponse(packet)@ == TransactionActionView::RetransmitResponse(
            packet@,
        ),
        TransactionAction::Ignore@ is Ignore,
        TransactionAction::ForwardToApp@ is ForwardToApp,
{
}

} // verus!
