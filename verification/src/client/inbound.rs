//! What the client does with what the stream brings.

use crate::client::{answered, Client, ClientView, Completion};
use crate::error::{CallError, CodecError, DecodeError, HandleError};
use crate::rpc::message::{Message, Notification, Request};
use crate::types::fields::same_text;
use crate::types::redraw::{decode_redraw_params, read_as, redraw_events, UiEvent};
use crate::value::Value;
use vstd::prelude::*;

verus! {

/// What the application is to do about a message that came in.
#[derive(Debug, PartialEq, Eq)]
pub enum Inbound<S> {
    /// A call ended: deliver the outcome through the slot.
    Completed(Completion<S>),
    /// A response that answers no call under way: a breach of the protocol.
    Unanswerable(HandleError),
    /// A redraw notification: hand the events to the UI, in order.
    Redraw(Vec<UiEvent>),
    /// A redraw notification that could not be read.
    RedrawFailed(DecodeError),
    /// A call from the editor, which the library does not answer.
    Request(Request),
    /// A notification other than redraw.
    Notification(Notification),
}

/// Whether `after` and `r` are what the message makes of the state `before`.
pub open spec fn dispatched<S>(
    before: ClientView<S>,
    after: ClientView<S>,
    r: Inbound<S>,
    message: Message,
) -> bool {
    match message {
        Message::Response(response) => {
            &&& r matches Inbound::Completed(done) ==> answered(
                before,
                after,
                Ok::<Completion<S>, HandleError>(done),
                response,
            )
            &&& r matches Inbound::Unanswerable(e) ==> answered(
                before,
                after,
                Err::<Completion<S>, HandleError>(e),
                response,
            )
            &&& r is Completed || r is Unanswerable
        },
        Message::Notification(note) => {
            &&& after == before
            &&& if note.method@ == "redraw"@ {
                match r {
                    Inbound::Redraw(events) => read_as(
                        Ok::<Vec<UiEvent>, DecodeError>(events),
                        redraw_events(note.params.deep_view()),
                    ),
                    Inbound::RedrawFailed(e) => read_as(
                        Err::<Vec<UiEvent>, DecodeError>(e),
                        redraw_events(note.params.deep_view()),
                    ),
                    _ => false,
                }
            } else {
                r == Inbound::<S>::Notification(note)
            }
        },
        Message::Request(request) => after == before && r == Inbound::<S>::Request(request),
    }
}

/// One turn of the read loop, as the client decides it.
#[derive(Debug, PartialEq, Eq)]
pub enum Step<S> {
    /// A message came in: act on it and go on.
    Deliver(Inbound<S>),
    /// No whole frame is there yet: read more bytes and go on.
    NeedBytes,
    /// The stream is gone: deliver a connection-closed error through each of
    /// these slots and leave the loop.
    Stop { error: CodecError, abandoned: Vec<Completion<S>> },
}

impl<S> Client<S> {
    /// Takes in one message from the editor and says what is to be done
    /// about it.
    pub fn dispatch(&mut self, message: Message) -> (r: Inbound<S>)
        requires
            old(self).wf(),
        ensures
            final(self).wf(),
            dispatched(old(self)@, final(self)@, r, message),
    {
        match message {
            Message::Response(response) => match self.handle_response(response) {
                Ok(done) => Inbound::Completed(done),
                Err(e) => Inbound::Unanswerable(e),
            },
            Message::Notification(note) => {
                if same_text(note.method.as_str(), "redraw") {
                    match decode_redraw_params(note.params) {
                        Ok(events) => Inbound::Redraw(events),
                        Err(e) => Inbound::RedrawFailed(e),
                    }
                } else {
                    Inbound::Notification(note)
                }
            },
            Message::Request(request) => Inbound::Request(request),
        }
    }

    /// Decides one turn of the read loop from what the reader gave.
    ///
    /// A message is acted on; a missing frame asks for more bytes; a failed
    /// read ends every call under way, so that no caller waits for ever.
    pub fn io_step(&mut self, read: Result<Option<Message>, CodecError>) -> (r: Step<S>)
        requires
            old(self).wf(),
        ensures
            final(self).wf(),
            match read {
                Ok(Some(message)) => r matches Step::Deliver(inbound) && dispatched(
                    old(self)@,
                    final(self)@,
                    inbound,
                    message,
                ),
                Ok(None) => r is NeedBytes && final(self)@ == old(self)@,
                Err(e) => r matches Step::Stop { error, abandoned } && error == e && final(self)@
                    == (ClientView { pending: Seq::empty(), ..old(self)@ }) && abandoned@.len()
                    == old(self)@.pending.len() && forall|i: int|
                    0 <= i < abandoned@.len() ==> (#[trigger] abandoned@[i]).slot == old(
                        self,
                    )@.pending[i].1 && abandoned@[i].outcome == Err::<Value, CallError>(
                        CallError::ConnectionClosed,
                    ),
            },
    {
        match read {
            Ok(Some(message)) => Step::Deliver(self.dispatch(message)),
            Ok(None) => Step::NeedBytes,
            Err(error) => Step::Stop { error, abandoned: self.close() },
        }
    }
}

} // verus!
