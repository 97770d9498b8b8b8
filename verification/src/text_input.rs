use vstd::prelude::*;
use wayland_protocols::wp::text_input::zv3::client::zwp_text_input_v3::ContentHint as ProtocolContentHint;

verus! {

/// The bits of the content hint flags that the text input protocol names:
/// completion, spellcheck, auto capitalization, lowercase, uppercase, titlecase,
/// hidden text, sensitive data, latin, multiline, on-screen input provided, no emoji
/// and preedit shown.
pub const KNOWN_CONTENT_HINT_BITS: u32 = 0x1fff;

/// A value of a protocol enumeration as it arrived on the wire: either one that the
/// protocol names, or a raw number that it does not.
#[derive(Debug, PartialEq, Eq)]
pub enum WEnum<T> {
    Value(T),
    Unknown(u32),
}

/// Why the surrounding text of a text input changed.
#[derive(Clone, Copy, Debug, PartialEq, Eq, Structural)]
pub enum ChangeCause {
    InputMethod,
    Other,
}

/// What kind of text the focused text input expects.
#[derive(Clone, Copy, Debug, PartialEq, Eq, Structural)]
pub enum ContentPurpose {
    Normal,
    Alpha,
    Digits,
    Number,
    Phone,
    Url,
    Email,
    Name,
    Password,
    Pin,
    Date,
    Time,
    Datetime,
    Terminal,
}

/// A set of content hint flags, held as the bits the protocol sends.
#[derive(Clone, Copy, Debug, PartialEq, Eq, Structural)]
pub struct ContentHint {
    pub bits: u32,
}

/// Calls `ContentHint::from_bits_truncate` of the protocol bindings (a `bitflags` type),
/// whose documented behaviour is to keep the bits of the named flags and clear all others.
#[verifier::external_body]
fn truncate_content_hint_bits(bits: u32) -> (res: u32)
    ensures
        res == bits & KNOWN_CONTENT_HINT_BITS,
{
    ProtocolContentHint::from_bits_truncate(bits).bits()
}

impl ContentHint {
    /// The hint with no flag set.
    pub fn empty() -> (r: ContentHint)
        ensures
            r.bits == 0,
    {
        ContentHint { bits: 0 }
    }

    /// The hint made of the named flags among `bits`; every bit the protocol does not
    /// name is dropped.
    pub fn from_bits_truncate(bits: u32) -> (r: ContentHint)
        ensures
            r.bits == bits & KNOWN_CONTENT_HINT_BITS,
    {
        ContentHint { bits: truncate_content_hint_bits(bits) }
    }
}

} // verus!
