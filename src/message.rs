//! The fixed-size message that an interrupt posts to the event bus.
use vstd::prelude::*;

verus! {

/// A one-byte message carried from interrupt context to the consumer.
/// It is copied by value: building or posting it allocates nothing.
#[derive(Clone, Copy, Debug, PartialEq, Eq, Structural)]
pub struct EventLoopMessage(pub u8);

impl EventLoopMessage {
    /// The tag that the message carries.
    pub open spec fn tag(self) -> u8 {
        self.0
    }

    pub fn new(data: u8) -> (r: Self)
        ensures
            r.tag() == data,
    {
        Self(data)
    }

    pub fn data(&self) -> (r: u8)
        ensures
            r == self.tag(),
    {
        self.0
    }

    /// The payload bytes posted for this message: its tag, alone.
    pub fn encode(&self) -> (r: Vec<u8>)
        ensures
            r@ == seq![self.tag()],
    {
        vec![self.0]
    }

    /// Reads a message back from a payload: exactly one byte, its tag.
    pub fn decode(bytes: &[u8]) -> (r: Option<EventLoopMessage>)
        ensures
            bytes@.len() == 1 ==> r == Some(EventLoopMessage(bytes@[0])),
            bytes@.len() != 1 ==> r is None,
    {
        if bytes.len() == 1 {
            Some(EventLoopMessage(bytes[0]))
        } else {
            None
        }
    }
}

} // verus!
