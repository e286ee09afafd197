# B2BUA

The session manager of a SIP platform: a back-to-back user agent that answers and places calls,
rents a media port for each of them, and tells the rest of the platform what happens by events.

The library under `src/` decides; it never sends, asks or stores anything itself. A call moves
through stages (`RoutingInvite`, `AllocatingInvite`, `AnsweringInvite`, `AnsweredInvite`; or
`OutboundCall`, `OutboundReady`), and each step returns the commands to be obeyed next. The program
under `app/` obeys them and reports what came of them. Everything in `src/` is verified with Verus;
what it calls of other crates stands behind wrappers whose doc comments say what is taken on trust.

| Module | What it holds |
| --- | --- |
| `text` | splitting, trimming, replacing and reading text, stated over sequences of characters |
| `config` | the configuration, read from an environment |
| `health`, `startup` | the answer to health probes; waiting for other services |
| `rabbitmq` | how often the broker is tried; requests to end a call |
| `grpc::client`, `grpc::service` | where the other services are, and connecting to them in order; the service's own interface |
| `sip::packet`, `sip::transaction`, `sip::dialplan` | the values that the call logic reads |
| `sip::sdp` | reading session descriptions |
| `sip::store`, `sip::layers` | the calls that are up; what memory and the persistent store hold together |
| `sip::handlers` | commands, media requests, events, and the life of a call |
| `sip::engine` | which packets are acted on, and how |
| `sip::call_flow` | what holds of a call from its INVITE to its end |

## Rules that the proofs show

- Every INVITE is acknowledged as under way and then gets exactly one final response: the answer,
  500 where it cannot be routed, 503 where no port can be had.
- `call.started` follows the answer that was sent, `call.answered` the caller's ACK, `call.ended` a
  BYE or a CANCEL of a known call, or a request of the platform; each names its call.
- The port that was rented for a call is the one that is given back when it ends, once, also by a
  process that was started after the call.
- What the dialplan decides on a call is passed on in `call.started` and changes nothing else: no
  treatment is carried out here. All that is ever played is what opens the way to the address in the
  caller's description.
- An answer describes the rented port at the public address, as far as what is asked of the writer of
  the description goes.
- A datagram reaches the engine exactly where it is no keep-alive and the parser makes a packet of its
  own bytes.
- Nothing that is done for one call changes another.
