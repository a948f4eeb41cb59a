//! The incoming half of the stream.

use crate::error::CodecError;
use crate::rpc::message::{next_frame, Message};
use crate::wire::decode::decode_value;
use crate::wire::encode::put_bytes;
use crate::wire::format::{Fault, MAX_DEPTH};
use vstd::prelude::*;

verus! {

/// Collects the bytes that the transport delivers and cuts them into
/// messages, in the order in which the peer wrote them.
pub struct RpcReader {
    buffer: Vec<u8>,
}

impl View for RpcReader {
    type V = Seq<u8>;

    /// The bytes received and not yet read as messages.
    closed spec fn view(&self) -> Seq<u8> {
        self.buffer@
    }
}

impl RpcReader {
    /// A reader that has received nothing.
    pub fn new() -> (r: RpcReader)
        ensures
            r@ == Seq::<u8>::empty(),
    {
        RpcReader { buffer: Vec::new() }
    }

    /// Takes in the bytes that the transport delivered next.
    pub fn feed(&mut self, bytes: &[u8])
        ensures
            final(self)@ == old(self)@ + bytes@,
    {
        put_bytes(&mut self.buffer, bytes);
    }

    /// How many bytes wait to be read.
    pub fn buffered(&self) -> (n: usize)
        ensures
            n == self@.len(),
    {
        self.buffer.len()
    }

    /// Reads the next message, if the bytes received so far hold a whole
    /// frame; `Ok(None)` asks for more bytes.
    ///
    /// A frame is used up whether it stands for a message or not. Bytes that
    /// are no msgpack value stay where they are, and every later call fails
    /// as this one did.
    pub fn recv(&mut self) -> (r: Result<Option<Message>, CodecError>)
        ensures
            match next_frame(old(self)@) {
                None => r matches Ok(None) && final(self)@ == old(self)@,
                Some((Ok(m), k)) => r matches Ok(Some(x)) && x@ == m && final(self)@ == old(
                    self,
                )@.skip(k),
                Some((Err(e), k)) => r matches Err(f) && f == e && final(self)@ == old(self)@.skip(
                    k,
                ),
            },
    {
        assert(self.buffer@.skip(0) =~= self.buffer@);
        match decode_value(self.buffer.as_slice(), 0, MAX_DEPTH) {
            Err(Fault::Truncated) => Ok(None),
            Err(Fault::Invalid) => Err(CodecError::Malformed),
            Ok((v, used)) => {
                let rest = self.buffer.split_off(used);
                self.buffer = rest;
                match Message::from_value(v) {
                    Ok(m) => Ok(Some(m)),
                    Err(e) => Err(e),
                }
            },
        }
    }

    /// Reads the next message of a stream that has ended: no more bytes
    /// will come.
    ///
    /// Where no whole frame is left, the stream ended between two frames or
    /// inside one: an I/O error either way.
    pub fn recv_at_end(&mut self) -> (r: Result<Message, CodecError>)
        ensures
            match next_frame(old(self)@) {
                None => r matches Err(e) && e == CodecError::Io && final(self)@ == old(self)@,
                Some((Ok(m), k)) => r matches Ok(x) && x@ == m && final(self)@ == old(self)@.skip(
                    k,
                ),
                Some((Err(e), k)) => r matches Err(f) && f == e && final(self)@ == old(self)@.skip(
                    k,
                ),
            },
    {
        match self.recv() {
            Ok(Some(m)) => Ok(m),
            Ok(None) => Err(CodecError::Io),
            Err(e) => Err(e),
        }
    }
}

} // verus!
