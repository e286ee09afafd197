//! The datagrams that the SIP socket receives.
use vstd::prelude::*;

verus! {

/// The largest datagram that is read.
pub const RECEIVE_BUFFER_LEN: usize = 65535;

/// A byte with which peers keep a path open.
pub open spec fn is_padding(b: u8) -> bool {
    b == 13 || b == 10 || b == 0
}

/// The datagram holds no SIP message: it is too short for one, or only keeps a path open.
pub open spec fn is_keep_alive_spec(data: Seq<u8>) -> bool {
    data.len() < 4 || forall|i: int| 0 <= i < data.len() ==> is_padding(#[trigger] data[i])
}

/// Whether a datagram is to be passed over.
pub fn is_keep_alive(data: &[u8]) -> (r: bool)
    ensures
        r == is_keep_alive_spec(data@),
{
    if data.len() < 4 {
        return true;
    }
    let mut i: usize = 0;
    while i < data.len()
        invariant
            i <= data.len(),
            data.len() >= 4,
            forall|j: int| 0 <= j < i ==> is_padding(#[trigger] data@[j]),
        decreases data.len() - i,
    {
        let b: u8 = data[i];
        if b != 13 && b != 10 && b != 0 {
            assert(!is_padding(data@[i as int]));
            return false;
        }
        i = i + 1;
    }
    true
}

/// What comes of a datagram.
#[derive(Debug, PartialEq, Eq)]
pub enum DatagramOutcome<A, P, E> {
    /// Nothing.
    KeepAlive,
    /// The engine is given this packet, from this sender.
    Dispatch { packet: P, source: A },
    /// The datagram is no SIP message, and is dropped without a reply.
    Malformed(E),
}

/// What comes of a datagram, where `parsed` is what the parser makes of it.
pub open spec fn datagram_outcome<A, P, E>(
    data: Seq<u8>,
    source: A,
    parsed: Result<P, E>,
) -> DatagramOutcome<A, P, E> {
    if is_keep_alive_spec(data) {
        DatagramOutcome::KeepAlive
    } else {
        match parsed {
            Ok(packet) => DatagramOutcome::Dispatch { packet, source },
            Err(error) => DatagramOutcome::Malformed(error),
        }
    }
}

/// Decides on a datagram of `len` bytes that was received from `source` into `buffer`. The parser is
/// given those bytes alone, and only where they are no keep-alive.
pub fn datagram_received<A, P, E, F: Fn(&[u8]) -> Result<P, E>>(
    buffer: &[u8],
    len: usize,
    source: A,
    parse: F,
) -> (r: DatagramOutcome<A, P, E>)
    requires
        len <= buffer.len(),
        forall|data: &[u8]| call_requires(parse, (data,)),
    ensures
        is_keep_alive_spec(buffer@.take(len as int)) ==> r is KeepAlive,
        !is_keep_alive_spec(buffer@.take(len as int)) ==> exists|data: &[u8], parsed: Result<P, E>|
            {
                &&& data@ == buffer@.take(len as int)
                &&& #[trigger] call_ensures(parse, (data,), parsed)
                &&& r == datagram_outcome(buffer@.take(len as int), source, parsed)
            },
{
    let data = vstd::slice::slice_subrange(buffer, 0, len);
    assert(data@ == buffer@.take(len as int));
    if is_keep_alive(data) {
        return DatagramOutcome::KeepAlive;
    }
    let parsed = parse(data);
    assert(call_ensures(parse, (data,), parsed));
    match parsed {
        Ok(packet) => DatagramOutcome::Dispatch { packet, source },
        Err(error) => DatagramOutcome::Malformed(error),
    }
}

/// A datagram is given to the engine exactly where it has four bytes or more, one of them other than
/// carriage return, line feed and zero, and the parser makes a packet of it; the packet and the
/// sender are then those of the datagram. What an earlier, longer datagram left in the buffer does not
/// matter.
pub proof fn datagrams_are_dispatched_as_they_came<A, P, E>(
    buffer: Seq<u8>,
    leftover: Seq<u8>,
    len: nat,
    source: A,
    parse: spec_fn(Seq<u8>) -> Result<P, E>,
)
    requires
        len <= buffer.len(),
    ensures
        ({
            let data = buffer.take(len as int);
            let outcome = datagram_outcome(data, source, parse(data));
            let other = (data + leftover).take(len as int);
            let speaks = len >= 4 && exists|i: int|
                0 <= i < data.len() && #[trigger] data[i] != 13 && data[i] != 10 && data[i] != 0;
            &&& outcome is Dispatch <==> speaks && parse(data) is Ok
            &&& outcome is KeepAlive <==> !speaks
            &&& outcome matches DatagramOutcome::Malformed(error) ==> parse(data)
                == Err::<P, E>(error)
            &&& outcome is Dispatch ==> outcome == (DatagramOutcome::<A, P, E>::Dispatch {
                packet: parse(data)->Ok_0,
                source,
            })
            &&& datagram_outcome(other, source, parse(other)) == outcome
        }),
{
    let data = buffer.take(len as int);
    assert((data + leftover).take(len as int) == data);
    if len >= 4 && !is_keep_alive_spec(data) {
        let i = choose|i: int| 0 <= i < data.len() && !is_padding(#[trigger] data[i]);
        assert(data[i] != 13 && data[i] != 10 && data[i] != 0);
    }
    if exists|i: int|
        0 <= i < data.len() && #[trigger] data[i] != 13 && data[i] != 10 && data[i] != 0 {
        let i = choose|i: int|
            0 <= i < data.len() && #[trigger] data[i] != 13 && data[i] != 10 && data[i] != 0;
        assert(!is_padding(data[i]));
    }
}

} // verus!
