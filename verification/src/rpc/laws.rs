//! What is proved of the framing of messages.

use crate::error::CodecError;
use crate::rpc::message::{message_of, next_frame, MessageView};
use crate::value::ValueView;
use crate::wire::format::{encodable, encoding, encoding_seq, MAX_DEPTH};
use crate::wire::laws::{lemma_parse_encoding, lemma_parse_stays, lemma_parse_within};
use vstd::prelude::*;

verus! {

/// The bytes of a row of three values.
pub proof fn lemma_encoding_seq_3(a: ValueView, b: ValueView, c: ValueView)
    ensures
        encoding_seq(seq![a, b, c]) == encoding(a) + encoding(b) + encoding(c),
{
    reveal_with_fuel(encoding_seq, 4);
    assert(seq![a, b, c].drop_last() =~= seq![a, b]);
    assert(seq![a, b].drop_last() =~= seq![a]);
    assert(seq![a].drop_last() =~= Seq::<ValueView>::empty());
    assert(Seq::<u8>::empty() + encoding(a) =~= encoding(a));
}

/// The bytes of a row of four values.
pub proof fn lemma_encoding_seq_4(a: ValueView, b: ValueView, c: ValueView, d: ValueView)
    ensures
        encoding_seq(seq![a, b, c, d]) == encoding(a) + encoding(b) + encoding(c) + encoding(d),
{
    lemma_encoding_seq_3(a, b, c);
    assert(seq![a, b, c, d].drop_last() =~= seq![a, b, c]);
}

/// The wire can carry an array of three values if it can carry each.
pub proof fn lemma_encodable_3(a: ValueView, b: ValueView, c: ValueView, depth: nat)
    ensures
        encodable(ValueView::Array(seq![a, b, c]), depth + 1) <==> encodable(a, depth)
            && encodable(b, depth) && encodable(c, depth),
{
    let items = seq![a, b, c];
    assert(items[0] == a && items[1] == b && items[2] == c);
    if encodable(a, depth) && encodable(b, depth) && encodable(c, depth) {
        assert forall|i: int| 0 <= i < items.len() implies encodable(
            #[trigger] items[i],
            depth,
        ) by {
            assert(i == 0 || i == 1 || i == 2);
        }
    }
}

/// The wire can carry an array of four values if it can carry each.
pub proof fn lemma_encodable_4(
    a: ValueView,
    b: ValueView,
    c: ValueView,
    d: ValueView,
    depth: nat,
)
    ensures
        encodable(ValueView::Array(seq![a, b, c, d]), depth + 1) <==> encodable(a, depth)
            && encodable(b, depth) && encodable(c, depth) && encodable(d, depth),
{
    let items = seq![a, b, c, d];
    assert(items[0] == a && items[1] == b && items[2] == c && items[3] == d);
    if encodable(a, depth) && encodable(b, depth) && encodable(c, depth) && encodable(d, depth) {
        assert forall|i: int| 0 <= i < items.len() implies encodable(
            #[trigger] items[i],
            depth,
        ) by {
            assert(i == 0 || i == 1 || i == 2 || i == 3);
        }
    }
}

/// A message read back from its own array is the message.
pub proof fn lemma_message_of_value(m: MessageView)
    requires
        m.wf(),
    ensures
        message_of(m.to_value()) == Ok::<MessageView, CodecError>(m),
{
}

/// Round trip: reading the frame of a message gives the message back, and
/// leaves what follows the frame on the stream unread.
pub proof fn lemma_round_trip(m: MessageView, rest: Seq<u8>)
    requires
        m.wf(),
        m.encodable(),
    ensures
        next_frame(m.frame() + rest) == Some(
            (Ok::<MessageView, CodecError>(m), m.frame().len() as int),
        ),
{
    lemma_parse_encoding(m.to_value(), rest, MAX_DEPTH as nat);
    lemma_message_of_value(m);
}

/// Ordering: what the front of the stream was read as, it is read as when
/// more bytes have come. So the messages come out in the order in which the
/// peer wrote their frames, however the transport cuts the stream into
/// pieces.
pub proof fn lemma_frame_stays(bytes: Seq<u8>, more: Seq<u8>)
    requires
        next_frame(bytes) is Some,
    ensures
        next_frame(bytes + more) == next_frame(bytes),
{
    lemma_parse_stays(bytes, more, MAX_DEPTH as nat);
}

/// A frame that was read took bytes, and no more than there were.
pub proof fn lemma_frame_within(bytes: Seq<u8>)
    ensures
        next_frame(bytes) matches Some((Ok(_), k)) ==> 0 < k <= bytes.len(),
{
    lemma_parse_within(bytes, MAX_DEPTH as nat);
}

} // verus!
