# preach

Platform independent data channels.

Preach provides WebRTC data channels on native and web platforms. It manages the exchange of session
descriptions and ICE candidates with a remote peer until a set of channels is open, and then carries
messages in both directions. The signaling server through which the peers find each other is
supplied by the user.

## Layout

`src/` is the library. It holds every decision, is written in Verus, and each function is proved to
do what its contract says.

- `configuration`, `message`, `error`: what connections and channels are described with.
- `negotiation`: the negotiation of a connection, as a machine that takes the outcome of the last
  action and returns the next one.
- `native`, `web`: what a platform is asked to do, and how messages of the remote peer are answered
  there.
- `channel`: open channels, and what their events leave for their owners.
- `sdp`: session descriptions, as the `webrtc_sdp` crate reads and shows them.
- `text`, `poll`: order and prefixes of texts, and a future that gives other tasks a turn.
- `history`, `exchange`: what holds of every negotiation and of every channel, whatever happens. In
  a negotiation, messages are handled and candidates applied in the order of arrival, no candidate
  comes before the remote description, and there is at most one of those. On a channel, every message
  that arrived before its end is read once and in order.

`app/` performs what the library decides: it talks to the platform's WebRTC implementation and to the
signaling server, and reports back.

`tests/` runs the library on pretended connections.

## What is trusted

The library relies on the `webrtc_sdp` crate to parse and to show session descriptions, and takes
from it that the outcome depends on nothing but the input. Of the standard library it takes that
turning a vector into a boxed slice keeps its bytes.
