# link_ear

The peer state of a shared listening room. Peers chat, queue tracks, play them in step with each
other, vote on each other's tracks, and move from relayed to direct connections. The library holds
all of the rules. What it does is stated in contracts and proved with Verus.

## How it works

A `Session` is the state of one peer. It is told what happens, one thing at a time:

* `command`: what the user asks for,
* `tick`: that one of its clocks has ticked,
* `network_event`: what has happened in the network.

Each call returns the effects that the session asks for: something to show, to send, to dial, to
fetch or to play. The caller carries them out in order, up to the first that fails, and calls
`resume` with the outcome, until `is_idle` holds. `Effect::Shutdown` ends the session.

Time, the connected peers and the state of the player come in as a `World`, so that every step is
a function of its inputs.

## Layout

* `src/text.rs`, `collections.rs`, `time.rs`: texts, ordered sets and tables, clocks.
* `src/peer.rs`, `address.rs`: peer identifiers and addresses. They call `libp2p` and the standard
  hasher through small trusted functions.
* `src/model.rs`: what is shown, sent and kept.
* `src/history.rs`, `names.rs`, `queue.rs`, `playback.rs`, `vote.rs`, `routes.rs`, `sync.rs`: the
  parts of a session.
* `src/effect.rs`: what a session takes in, what it asks for, and what it has yet to do.
* `src/session.rs` and `src/session/`: the session.
* `src/laws.rs` and `src/laws/`: what holds of a room as a whole.
* `app/`: runs a session on a network, a source of tracks and an audio output.
* `tests/`: scenarios on concrete values.
