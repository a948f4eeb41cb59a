//! The outgoing half of the stream.

use crate::error::CodecError;
use crate::rpc::message::Message;
use crate::wire::encode::put_bytes;
use vstd::prelude::*;

verus! {

/// Frames messages for the stream and queues the bytes until the transport
/// takes them.
///
/// A frame enters the queue whole or not at all, so frames never interleave,
/// and the queue holds them in the order in which they were written.
pub struct RpcWriter {
    queue: Vec<u8>,
}

impl View for RpcWriter {
    type V = Seq<u8>;

    /// The bytes that wait to be sent.
    closed spec fn view(&self) -> Seq<u8> {
        self.queue@
    }
}

impl RpcWriter {
    /// A writer with nothing queued.
    pub fn new() -> (w: RpcWriter)
        ensures
            w@ == Seq::<u8>::empty(),
    {
        RpcWriter { queue: Vec::new() }
    }

    /// Queues the frame of `message`.
    ///
    /// On a message that the wire cannot carry, fails and queues nothing.
    pub fn write(&mut self, message: &Message) -> (r: Result<(), CodecError>)
        ensures
            r is Ok <==> message@.encodable(),
            r is Ok ==> final(self)@ == old(self)@ + message@.frame(),
            r matches Err(e) ==> e == CodecError::TooLarge && final(self)@ == old(self)@,
    {
        match message.encode() {
            Ok(frame) => {
                put_bytes(&mut self.queue, frame.as_slice());
                Ok(())
            },
            Err(e) => Err(e),
        }
    }

    /// Whether nothing waits to be sent.
    pub fn is_empty(&self) -> (r: bool)
        ensures
            r == (self@.len() == 0),
    {
        self.queue.len() == 0
    }

    /// Hands out the queued bytes, in order, and empties the queue.
    pub fn take(&mut self) -> (bytes: Vec<u8>)
        ensures
            bytes@ == old(self)@,
            final(self)@ == Seq::<u8>::empty(),
    {
        let bytes = self.queue.split_off(0);
        assert(bytes@ =~= old(self)@);
        assert(self.queue@ =~= Seq::<u8>::empty());
        bytes
    }
}

} // verus!
