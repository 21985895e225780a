//! The framing codec of the message broker client; it holds no state.
use vstd::prelude::*;

verus! {

/// Frames broker packets on a byte stream.
#[derive(Clone, Copy, Debug, PartialEq, Eq, Structural)]
pub struct MQTTCodec {}

impl MQTTCodec {
    /// A codec; all codecs are alike.
    pub fn new() -> (r: MQTTCodec)
        ensures
            r == (MQTTCodec {}),
    {
        MQTTCodec {}
    }
}

} // verus!
