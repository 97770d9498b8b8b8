# input_method_v3

The client-side logic of an input method for Wayland compositors, proved with Verus.

- `src/text_input.rs`: the values of the text input protocol (change cause, content
  purpose, content hint bits) and how values the protocol does not name are received.
- `src/state.rs`: the capability negotiation of a text input (`Active`) and the state the
  compositor describes (`InputMethodEventState`).
- `src/input_method.rs`: the double-buffered state of an input method object, how each
  event changes it, the requests the input method sends, and the laws that hold of them.
- `app/`: the Wayland plumbing (protocol objects, dispatch, the handler trait) that feeds
  events to the library and sends the requests it builds.
