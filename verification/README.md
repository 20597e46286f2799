# hyperdeck_monitor

A monitor for Blackmagic HyperDeck recorders. A server keeps the list of
monitored decks, drives a Node.js process that talks to the decks, and pushes
the state of every deck to the browser control panels over a websocket.

- `src/` is the verified library:
  - `id_map`: a collection keyed by textual ids, each id at most once;
  - `message`: the requests, events and deck state shared by server and panel;
  - `monitor`: the server's state machine over driver reports and panel
    requests, with its laws;
  - `node_process`: the supervision of the driver process as a step
    function, with its laws;
  - `api`: the keep-alive filter of the websocket API;
  - `storage`: the persisted record of a deck;
  - `panel`: the control panel's decisions (add form, deck list, queue of
    outgoing requests, warning blink), with the laws that tie it to the
    monitor.
- `app/` is the server program (axum, tokio, the driver process and its
  websocket, JSON) and the panel's egui drawing code.
- `tests/` exercise the library with the real outside crates.
