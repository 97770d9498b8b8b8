//! Client-side logic of the input method protocol: the double-buffered state that the
//! compositor describes through events, the capability negotiation of a text input, and
//! the requests an input method sends back.
//!
//! Everything here works on plain values; the connection that carries events and requests
//! lives outside this library.

pub mod text_input;
pub mod state;
pub mod input_method;
