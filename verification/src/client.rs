//! Pairing of calls with their answers.
//!
//! A [`Client`] numbers the calls, frames each as a request, and keeps for
//! every call under way the slot through which its caller awaits the answer.
//! The slot is whatever the embedding application awaits on; the client
//! stores it at the call and hands it back, once, with the outcome.

pub mod inbound;
pub mod laws;

pub use crate::error::{CallError, CorrelationError, HandleError};
pub use inbound::{Inbound, Step};

use crate::error::CallErrorView;
use crate::rpc::message::{option_view, or_nil, Message, MessageView, Request, Response};
use crate::rpc::writer::RpcWriter;
use crate::value::{Value, ValueView};
use vstd::prelude::*;

verus! {

/// A slot handed back with what its caller is to receive.
#[derive(Debug, PartialEq, Eq)]
pub struct Completion<S> {
    pub slot: S,
    pub outcome: Result<Value, CallError>,
}

/// A call that was not issued, with the slot it came with.
#[derive(Debug, PartialEq, Eq)]
pub struct Rejected<S> {
    pub slot: S,
    pub error: CallError,
}

/// The client's side of a connection.
pub struct Client<S> {
    writer: RpcWriter,
    next_id: u32,
    pending: Vec<(u32, S)>,
}

/// Mathematical model of a [`Client`].
pub struct ClientView<S> {
    /// The id that the next call gets.
    pub next_id: u32,
    /// The calls under way, in the order in which they were issued, each
    /// with its id and its slot.
    pub pending: Seq<(u32, S)>,
    /// The bytes framed and not yet taken by the transport.
    pub outgoing: Seq<u8>,
}

/// The model of what a caller receives.
pub open spec fn outcome_view(outcome: Result<Value, CallError>) -> Result<
    ValueView,
    CallErrorView,
> {
    match outcome {
        Ok(v) => Ok(v@),
        Err(e) => Err(e@),
    }
}

/// What the caller of the answered call receives: the peer's error where
/// there is one, else the result, nil where none came.
pub open spec fn outcome_of(error: Option<ValueView>, result: Option<ValueView>) -> Result<
    ValueView,
    CallErrorView,
> {
    match error {
        Some(e) => Err(CallErrorView::Remote(e)),
        None => Ok(or_nil(result)),
    }
}

impl<S> ClientView<S> {
    /// No two calls under way share an id.
    pub open spec fn wf(self) -> bool {
        forall|i: int, j: int|
            #![trigger self.pending[i], self.pending[j]]
            0 <= i < j < self.pending.len() ==> self.pending[i].0 != self.pending[j].0
    }

    /// Whether a call with this id is under way.
    pub open spec fn is_pending(self, id: u32) -> bool {
        exists|i: int| 0 <= i < self.pending.len() && self.pending[i].0 == id
    }

    /// The place of the call with this id among those under way.
    pub open spec fn position(self, id: u32) -> int {
        choose|i: int| 0 <= i < self.pending.len() && self.pending[i].0 == id
    }

    /// The slot of the call with this id.
    pub open spec fn slot_of(self, id: u32) -> S {
        self.pending[self.position(id)].1
    }

    /// The state once the call with this id is no longer under way.
    pub open spec fn without(self, id: u32) -> ClientView<S> {
        ClientView { pending: self.pending.remove(self.position(id)), ..self }
    }

    /// The id after `next_id`; the counter wraps.
    pub open spec fn following_id(self) -> u32 {
        if self.next_id == u32::MAX {
            0
        } else {
            (self.next_id + 1) as u32
        }
    }

    /// The request that the next call of `method` with `params` sends.
    pub open spec fn request(self, method: Seq<char>, params: Seq<ValueView>) -> MessageView {
        MessageView::Request { id: self.next_id, method, params }
    }

    /// Whether the next call of `method` with `params` is issued: its id is
    /// free and the wire can carry its request.
    pub open spec fn accepts(self, method: Seq<char>, params: Seq<ValueView>) -> bool {
        !self.is_pending(self.next_id) && self.request(method, params).encodable()
    }

    /// The state after a call of `method` with `params` and `slot`. The call
    /// uses up an id whether it is issued or not.
    pub open spec fn after_call(self, method: Seq<char>, params: Seq<ValueView>, slot: S)
        -> ClientView<S> {
        if self.accepts(method, params) {
            ClientView {
                next_id: self.following_id(),
                pending: self.pending.push((self.next_id, slot)),
                outgoing: self.outgoing + self.request(method, params).frame(),
            }
        } else {
            ClientView { next_id: self.following_id(), ..self }
        }
    }

    /// The state after a response with this id came in.
    pub open spec fn after_response(self, id: u32) -> ClientView<S> {
        if self.is_pending(id) {
            self.without(id)
        } else {
            self
        }
    }
}

/// Whether `after` and `r` are what a call of `method` with `params` and
/// `slot` makes of the state `before`: the call is issued under the next id
/// where the state accepts it; else it is rejected, for a collision where
/// the id is in use, for an I/O error where the wire cannot carry the
/// request, and the slot comes back.
pub open spec fn called<S>(
    before: ClientView<S>,
    after: ClientView<S>,
    r: Result<u32, Rejected<S>>,
    method: Seq<char>,
    params: Seq<ValueView>,
    slot: S,
) -> bool {
    &&& after == before.after_call(method, params, slot)
    &&& r is Ok <==> before.accepts(method, params)
    &&& r matches Ok(id) ==> id == before.next_id
    &&& r matches Err(rejected) ==> rejected.slot == slot && rejected.error == (
    if before.is_pending(before.next_id) {
        CallError::Correlation(CorrelationError::IdCollision(before.next_id))
    } else {
        CallError::Io
    })
}

/// Whether `after` and `r` are what the response makes of the state
/// `before`: the call that it answers ends, and its slot comes back with
/// what its caller is to receive; a response that answers no call changes
/// nothing and is an error.
pub open spec fn answered<S>(
    before: ClientView<S>,
    after: ClientView<S>,
    r: Result<Completion<S>, HandleError>,
    response: Response,
) -> bool {
    &&& after == before.after_response(response.id)
    &&& before.is_pending(response.id) ==> (r matches Ok(done) && done.slot == before.slot_of(
        response.id,
    ) && outcome_view(done.outcome) == outcome_of(
        option_view(response.error),
        option_view(response.result),
    ))
    &&& !before.is_pending(response.id) ==> r == Err::<Completion<S>, HandleError>(
        HandleError::UnknownId(response.id),
    )
}

impl<S> View for Client<S> {
    type V = ClientView<S>;

    closed spec fn view(&self) -> ClientView<S> {
        ClientView { next_id: self.next_id, pending: self.pending@, outgoing: self.writer@ }
    }
}

impl<S> Client<S> {
    /// Whether the client's state is valid. Every client that this library
    /// hands out or leaves behind is.
    pub open spec fn wf(&self) -> bool {
        self@.wf()
    }

    /// A client that frames its requests into `writer`. No call is under
    /// way, and the first call gets id 0.
    pub fn new(writer: RpcWriter) -> (c: Client<S>)
        ensures
            c.wf(),
            c@ == (ClientView::<S> {
                next_id: 0,
                pending: Seq::empty(),
                outgoing: writer@,
            }),
    {
        Client { writer, next_id: 0, pending: Vec::new() }
    }

    /// Makes `id` the id that the next call gets. The ids of the calls
    /// under way stay as they are; a call that would reuse one of them is
    /// rejected when it is made.
    pub fn set_next_id(&mut self, id: u32)
        requires
            old(self).wf(),
        ensures
            final(self).wf(),
            final(self)@ == (ClientView { next_id: id, ..old(self)@ }),
    {
        self.next_id = id;
        assert(self@.pending == old(self)@.pending);
    }

    /// The place of the call with this id among those under way.
    fn find(&self, id: u32) -> (r: Option<usize>)
        requires
            self.wf(),
        ensures
            r is Some <==> self@.is_pending(id),
            r matches Some(i) ==> i == self@.position(id) && i < self@.pending.len()
                && self@.pending[i as int].0 == id,
    {
        let mut i: usize = 0;
        while i < self.pending.len()
            invariant
                self.wf(),
                i <= self.pending@.len(),
                forall|j: int| 0 <= j < i ==> self.pending@[j].0 != id,
            decreases self.pending@.len() - i,
        {
            if self.pending[i].0 == id {
                proof {
                    let found = self@.position(id);
                    assert(self@.pending[i as int].0 == id);
                    assert(found == i) by {
                        if found < i {
                            assert(self@.pending[found].0 != self@.pending[i as int].0);
                        } else if found > i {
                            assert(self@.pending[i as int].0 != self@.pending[found].0);
                        }
                    }
                }
                return Some(i);
            }
            i = i + 1;
        }
        None
    }

    /// How many calls are under way.
    pub fn pending_calls(&self) -> (n: usize)
        ensures
            n == self@.pending.len(),
    {
        self.pending.len()
    }

    /// Whether a call with this id is under way.
    pub fn is_pending(&self, id: u32) -> (r: bool)
        requires
            self.wf(),
        ensures
            r == self@.is_pending(id),
    {
        self.find(id).is_some()
    }

    /// Issues a call: gives it the next id, keeps `slot` for its answer and
    /// queues its request for the transport. Returns the id.
    ///
    /// The call is rejected, and `slot` handed back, where the id is still in
    /// use by a call under way, or where the wire cannot carry the request.
    pub fn call(&mut self, method: &str, params: Vec<Value>, slot: S) -> (r: Result<
        u32,
        Rejected<S>,
    >)
        requires
            old(self).wf(),
        ensures
            final(self).wf(),
            called(old(self)@, final(self)@, r, method@, params.deep_view(), slot),
    {
        let id = self.next_id;
        self.next_id = if id == u32::MAX {
            0
        } else {
            id + 1
        };
        assert(self@.pending == old(self)@.pending);
        assert(self.wf());
        if self.find(id).is_some() {
            return Err(
                Rejected { slot, error: CallError::Correlation(CorrelationError::IdCollision(id)) },
            );
        }
        let request = Message::Request(Request { id, method: method.to_owned(), params });
        if self.writer.write(&request).is_err() {
            return Err(Rejected { slot, error: CallError::Io });
        }
        self.pending.push((id, slot));
        Ok(id)
    }

    /// Takes in a response: ends the call that it answers and hands back the
    /// call's slot with what its caller is to receive.
    ///
    /// Fails, and changes nothing, where no call with the response's id is
    /// under way.
    pub fn handle_response(&mut self, response: Response) -> (r: Result<
        Completion<S>,
        HandleError,
    >)
        requires
            old(self).wf(),
        ensures
            final(self).wf(),
            answered(old(self)@, final(self)@, r, response),
    {
        match self.find(response.id) {
            None => Err(HandleError::UnknownId(response.id)),
            Some(i) => {
                let (_, slot) = self.pending.remove(i);
                let outcome = match response.error {
                    Some(e) => Err(CallError::Remote(e)),
                    None => match response.result {
                        Some(v) => Ok(v),
                        None => Ok(Value::Nil),
                    },
                };
                Ok(Completion { slot, outcome })
            },
        }
    }

    /// Ends the call with this id because its request could not be sent:
    /// hands back its slot with an I/O error for its caller.
    ///
    /// Returns `None`, and changes nothing, where no such call is under way.
    pub fn write_failed(&mut self, id: u32) -> (r: Option<Completion<S>>)
        requires
            old(self).wf(),
        ensures
            final(self).wf(),
            final(self)@ == old(self)@.after_response(id),
            r is Some <==> old(self)@.is_pending(id),
            r matches Some(done) ==> done.slot == old(self)@.slot_of(id) && done.outcome == Err::<
                Value,
                CallError,
            >(CallError::Io),
    {
        match self.find(id) {
            None => None,
            Some(i) => {
                let (_, slot) = self.pending.remove(i);
                Some(Completion { slot, outcome: Err(CallError::Io) })
            },
        }
    }

    /// Ends every call under way because the connection is gone: hands back
    /// all their slots, in the order in which the calls were issued, each
    /// with a connection-closed error for its caller.
    pub fn close(&mut self) -> (done: Vec<Completion<S>>)
        requires
            old(self).wf(),
        ensures
            final(self).wf(),
            final(self)@ == (ClientView { pending: Seq::empty(), ..old(self)@ }),
            done@.len() == old(self)@.pending.len(),
            forall|i: int|
                0 <= i < done@.len() ==> (#[trigger] done@[i]).slot == old(self)@.pending[i].1
                    && done@[i].outcome == Err::<Value, CallError>(CallError::ConnectionClosed),
    {
        let ghost calls = self.pending@;
        let mut reversed: Vec<S> = Vec::new();
        while self.pending.len() > 0
            invariant
                self.next_id == old(self).next_id,
                self.writer == old(self).writer,
                self.pending@.len() + reversed@.len() == calls.len(),
                self.pending@ == calls.take(self.pending@.len() as int),
                forall|i: int|
                    0 <= i < reversed@.len() ==> #[trigger] reversed@[i] == calls[calls.len() - 1
                        - i].1,
            decreases self.pending@.len(),
        {
            let ghost before = self.pending@.len();
            let (_, slot) = self.pending.pop().unwrap();
            reversed.push(slot);
            assert(self.pending@ =~= calls.take(before - 1));
        }
        let mut done: Vec<Completion<S>> = Vec::new();
        while reversed.len() > 0
            invariant
                self.next_id == old(self).next_id,
                self.writer == old(self).writer,
                self.pending@.len() == 0,
                done@.len() + reversed@.len() == calls.len(),
                forall|i: int|
                    0 <= i < reversed@.len() ==> #[trigger] reversed@[i] == calls[calls.len() - 1
                        - i].1,
                forall|i: int|
                    0 <= i < done@.len() ==> (#[trigger] done@[i]).slot == calls[i].1 && done@[i].outcome
                        == Err::<Value, CallError>(CallError::ConnectionClosed),
            decreases reversed@.len(),
        {
            let slot = reversed.pop().unwrap();
            done.push(Completion { slot, outcome: Err(CallError::ConnectionClosed) });
        }
        assert(self.pending@ =~= Seq::empty());
        done
    }

    /// Hands out the bytes that wait for the transport, in order.
    pub fn take_outgoing(&mut self) -> (bytes: Vec<u8>)
        ensures
            bytes@ == old(self)@.outgoing,
            final(self)@ == (ClientView { outgoing: Seq::empty(), ..old(self)@ }),
    {
        self.writer.take()
    }
}

} // verus!
