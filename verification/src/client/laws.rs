//! What is proved of the pairing of calls and answers.

use crate::client::ClientView;
use crate::value::ValueView;
use vstd::prelude::*;

verus! {

/// One call as the application makes it: the method, its arguments and the
/// slot for the answer.
pub type CallArgs<S> = (Seq<char>, Seq<ValueView>, S);

/// In a valid state a call under way is found at its own place.
pub proof fn lemma_position<S>(c: ClientView<S>, i: int)
    requires
        c.wf(),
        0 <= i < c.pending.len(),
    ensures
        c.is_pending(c.pending[i].0),
        c.position(c.pending[i].0) == i,
        c.slot_of(c.pending[i].0) == c.pending[i].1,
{
    let id = c.pending[i].0;
    let found = c.position(id);
    assert(c.pending[i].0 == id);
    if found < i {
        assert(c.pending[found].0 != c.pending[i].0);
    } else if found > i {
        assert(c.pending[i].0 != c.pending[found].0);
    }
}

/// Id uniqueness, one step: a call leaves the ids of the calls under way
/// distinct, and an issued call gets an id that no call under way has.
pub proof fn lemma_call_keeps_ids_distinct<S>(
    c: ClientView<S>,
    method: Seq<char>,
    params: Seq<ValueView>,
    slot: S,
)
    requires
        c.wf(),
    ensures
        c.after_call(method, params, slot).wf(),
        c.accepts(method, params) ==> !c.is_pending(c.next_id) && c.after_call(
            method,
            params,
            slot,
        ).is_pending(c.next_id) && c.after_call(method, params, slot).slot_of(c.next_id) == slot,
{
    let after = c.after_call(method, params, slot);
    if c.accepts(method, params) {
        let n = c.pending.len() as int;
        assert forall|i: int, j: int| 0 <= i < j < after.pending.len() implies after.pending[i].0
            != after.pending[j].0 by {
            if j == n {
                assert(c.pending[i].0 != c.next_id);
            } else {
                assert(c.pending[i].0 != c.pending[j].0);
            }
        }
        assert(after.pending[n] == (c.next_id, slot));
        lemma_position(after, n);
    }
}

/// Id uniqueness, one step: a response leaves the ids of the calls under way
/// distinct.
pub proof fn lemma_response_keeps_ids_distinct<S>(c: ClientView<S>, id: u32)
    requires
        c.wf(),
    ensures
        c.after_response(id).wf(),
{
    if c.is_pending(id) {
        let at = c.position(id);
        let after = c.after_response(id);
        assert forall|i: int, j: int| 0 <= i < j < after.pending.len() implies after.pending[i].0
            != after.pending[j].0 by {
            let from_i = if i < at {
                i
            } else {
                i + 1
            };
            let from_j = if j < at {
                j
            } else {
                j + 1
            };
            assert(c.pending[from_i].0 != c.pending[from_j].0);
        }
    }
}

/// The state after the calls of `calls`, made in order.
pub open spec fn after_calls<S>(c: ClientView<S>, calls: Seq<CallArgs<S>>) -> ClientView<S>
    decreases calls.len(),
{
    if calls.len() == 0 {
        c
    } else {
        after_calls(c, calls.drop_last()).after_call(
            calls.last().0,
            calls.last().1,
            calls.last().2,
        )
    }
}

/// Whether each of `calls`, made in order, is issued.
pub open spec fn all_accepted<S>(c: ClientView<S>, calls: Seq<CallArgs<S>>) -> bool
    decreases calls.len(),
{
    calls.len() == 0 || (all_accepted(c, calls.drop_last()) && after_calls(
        c,
        calls.drop_last(),
    ).accepts(calls.last().0, calls.last().1))
}

/// The calls that `calls` put under way, each with its id and slot.
pub open spec fn issued<S>(c: ClientView<S>, calls: Seq<CallArgs<S>>) -> Seq<(u32, S)> {
    after_calls(c, calls).pending.skip(c.pending.len() as int)
}

/// Id uniqueness: calls issued one after the other with no answer in
/// between are all under way at the end, behind those that were under way
/// before, in order and each with its own slot; no two of them have the same
/// id, and none has the id of a call that was under way before.
pub proof fn lemma_concurrent_calls_have_distinct_ids<S>(
    c: ClientView<S>,
    calls: Seq<CallArgs<S>>,
)
    requires
        c.wf(),
        all_accepted(c, calls),
    ensures
        after_calls(c, calls).wf(),
        after_calls(c, calls).pending == c.pending + issued(c, calls),
        issued(c, calls).len() == calls.len(),
        forall|k: int| 0 <= k < calls.len() ==> (#[trigger] issued(c, calls)[k]).1 == calls[k].2,
        forall|j: int, k: int|
            0 <= j < k < calls.len() ==> (#[trigger] issued(c, calls)[j]).0 != (#[trigger] issued(
                c,
                calls,
            )[k]).0,
        forall|i: int, k: int|
            0 <= i < c.pending.len() && 0 <= k < calls.len() ==> (#[trigger] c.pending[i]).0 != (
            #[trigger] issued(c, calls)[k]).0,
    decreases calls.len(),
{
    let n = c.pending.len() as int;
    let end = after_calls(c, calls);
    if calls.len() == 0 {
        assert(end.pending =~= c.pending + issued(c, calls));
    } else {
        let init = calls.drop_last();
        let before = after_calls(c, init);
        let (method, params, slot) = calls.last();
        lemma_concurrent_calls_have_distinct_ids(c, init);
        lemma_call_keeps_ids_distinct(before, method, params, slot);
        assert(end.pending == before.pending.push((before.next_id, slot)));
        assert(issued(c, calls) =~= issued(c, init).push((before.next_id, slot)));
        assert(end.pending =~= c.pending + issued(c, calls));
        assert forall|k: int| 0 <= k < calls.len() implies (#[trigger] issued(c, calls)[k]).1
            == calls[k].2 by {
            if k < init.len() {
                assert(issued(c, init)[k].1 == init[k].2);
            }
        }
        assert forall|j: int, k: int| 0 <= j < k < calls.len() implies (#[trigger] issued(
            c,
            calls,
        )[j]).0 != (#[trigger] issued(c, calls)[k]).0 by {
            assert(end.pending[n + j] == issued(c, calls)[j]);
            assert(end.pending[n + k] == issued(c, calls)[k]);
        }
        assert forall|i: int, k: int|
            0 <= i < c.pending.len() && 0 <= k < calls.len() implies (#[trigger] c.pending[i]).0
            != (#[trigger] issued(c, calls)[k]).0 by {
            assert(end.pending[i] == c.pending[i]);
            assert(end.pending[n + k] == issued(c, calls)[k]);
        }
    }
}

/// At-most-once fulfillment: once a response with some id was taken in, no
/// call with that id is under way, so a second response with the id finds
/// none.
pub proof fn lemma_answered_at_most_once<S>(c: ClientView<S>, id: u32)
    requires
        c.wf(),
    ensures
        !c.after_response(id).is_pending(id),
        c.after_response(id).after_response(id) == c.after_response(id),
{
    let after = c.after_response(id);
    if c.is_pending(id) {
        let at = c.position(id);
        if after.is_pending(id) {
            let again = after.position(id);
            let from = if again < at {
                again
            } else {
                again + 1
            };
            assert(c.pending[from].0 == id);
            if from < at {
                assert(c.pending[from].0 != c.pending[at].0);
            } else {
                assert(c.pending[at].0 != c.pending[from].0);
            }
        }
    }
}

/// A response leaves every other call under way, with its slot.
pub proof fn lemma_response_spares_others<S>(c: ClientView<S>, id: u32, other: u32)
    requires
        c.wf(),
        other != id,
    ensures
        c.after_response(id).is_pending(other) == c.is_pending(other),
        c.is_pending(other) ==> c.after_response(id).slot_of(other) == c.slot_of(other),
{
    let after = c.after_response(id);
    lemma_response_keeps_ids_distinct(c, id);
    if c.is_pending(id) {
        let at = c.position(id);
        if c.is_pending(other) {
            let was = c.position(other);
            let now = if was < at {
                was
            } else {
                was - 1
            };
            assert(after.pending[now] == c.pending[was]);
            lemma_position(after, now);
        }
        if after.is_pending(other) {
            let now = after.position(other);
            let was = if now < at {
                now
            } else {
                now + 1
            };
            assert(c.pending[was].0 == other);
        }
    }
}

/// Order independence: of two calls issued one after the other, each answer
/// ends its own call and hands back that call's slot, whichever of the two
/// answers comes first; and both orders leave the same state.
pub proof fn lemma_answers_in_any_order<S>(c: ClientView<S>, a: CallArgs<S>, b: CallArgs<S>)
    requires
        c.wf(),
        c.accepts(a.0, a.1),
        c.after_call(a.0, a.1, a.2).accepts(b.0, b.1),
    ensures
        ({
            let id_a = c.next_id;
            let issued_a = c.after_call(a.0, a.1, a.2);
            let id_b = issued_a.next_id;
            let both = issued_a.after_call(b.0, b.1, b.2);
            &&& id_a != id_b
            &&& both.is_pending(id_a) && both.slot_of(id_a) == a.2
            &&& both.is_pending(id_b) && both.slot_of(id_b) == b.2
            &&& both.after_response(id_b).is_pending(id_a)
            &&& both.after_response(id_b).slot_of(id_a) == a.2
            &&& both.after_response(id_a).is_pending(id_b)
            &&& both.after_response(id_a).slot_of(id_b) == b.2
            &&& both.after_response(id_b).after_response(id_a) == both.after_response(
                id_a,
            ).after_response(id_b)
            &&& both.after_response(id_b).after_response(id_a).pending == c.pending
        }),
{
    let id_a = c.next_id;
    let issued_a = c.after_call(a.0, a.1, a.2);
    let id_b = issued_a.next_id;
    let both = issued_a.after_call(b.0, b.1, b.2);
    let n = c.pending.len() as int;
    lemma_call_keeps_ids_distinct(c, a.0, a.1, a.2);
    lemma_call_keeps_ids_distinct(issued_a, b.0, b.1, b.2);
    assert(both.pending[n] == (id_a, a.2));
    assert(both.pending[n + 1] == (id_b, b.2));
    lemma_position(both, n);
    lemma_position(both, n + 1);
    lemma_response_spares_others(both, id_b, id_a);
    lemma_response_spares_others(both, id_a, id_b);
    let first_b = both.after_response(id_b);
    let first_a = both.after_response(id_a);
    assert(first_b.pending =~= c.pending.push((id_a, a.2)));
    assert(first_a.pending =~= c.pending.push((id_b, b.2)));
    lemma_position(first_b, n);
    lemma_position(first_a, n);
    assert(first_b.after_response(id_a).pending =~= c.pending);
    assert(first_a.after_response(id_b).pending =~= c.pending);
}

} // verus!
