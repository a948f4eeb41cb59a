//! What is proved of the reading of redraw notifications.

use crate::types::color::{color_of, Color, UNSET};
use crate::types::fields::{fields_of, parse_each, Decode};
use crate::types::redraw::{batch_event, event_kind, redraw_events, DecodeErrorView, UiEventView};
use crate::types::uievents::{DefaultColorsSet, GridLine, GridLineView};
use crate::value::ValueView;
use vstd::prelude::*;

verus! {

/// A row of values spells records if and only if each value does, and then
/// the records stand in the order of the values, one for each.
pub proof fn lemma_records_keep_order<T: Decode>(items: Seq<ValueView>)
    ensures
        parse_each::<T>(items) is Ok <==> forall|i: int|
            0 <= i < items.len() ==> T::parse(#[trigger] items[i]) is Ok,
        parse_each::<T>(items) matches Ok(records) ==> records.len() == items.len() && forall|
            i: int,
        |
            0 <= i < items.len() ==> T::parse(items[i]) == Ok::<T::V, nat>(#[trigger] records[i]),
    decreases items.len(),
{
    if items.len() > 0 {
        let init = items.drop_last();
        lemma_records_keep_order::<T>(init);
        if parse_each::<T>(items) is Ok {
            assert forall|i: int| 0 <= i < items.len() implies T::parse(#[trigger] items[i])
                is Ok by {
                if i < init.len() {
                    assert(items[i] == init[i]);
                }
            }
        } else if parse_each::<T>(init) is Ok {
            assert(T::parse(items[items.len() - 1]) is Err);
        } else {
            let i = choose|i: int| 0 <= i < init.len() && !(T::parse(#[trigger] init[i]) is Ok);
            assert(items[i] == init[i]);
        }
    }
}

/// Redraw batching: a notification that is read gives one event for each of
/// its batches, in the order of the batches, and each event is what its
/// batch alone stands for. Batches are never merged.
pub proof fn lemma_one_event_per_batch(params: Seq<ValueView>)
    ensures
        redraw_events(params) matches Ok(events) ==> events.len() == params.len() && forall|
            i: int,
        |
            0 <= i < params.len() ==> batch_event(params[i], i as nat) == Ok::<
                UiEventView,
                DecodeErrorView,
            >(#[trigger] events[i]),
    decreases params.len(),
{
    if params.len() > 0 {
        lemma_one_event_per_batch(params.drop_last());
    }
}

/// Redraw batching: the event of a `grid_line` batch holds one record for
/// each occurrence of the batch, in the order of the occurrences.
pub proof fn lemma_grid_line_batch(items: Seq<ValueView>, batch: nat)
    requires
        items.len() > 0,
        items[0] == ValueView::Str("grid_line"@),
    ensures
        batch_event(ValueView::Array(items), batch) matches Ok(event) ==> event matches UiEventView::GridLine(
            records,
        ) && records.len() == items.len() - 1 && forall|i: int|
            0 <= i < records.len() ==> GridLine::parse(items[i + 1]) == Ok::<GridLineView, nat>(
                #[trigger] records[i],
            ),
{
    lemma_records_keep_order::<GridLine>(items.skip(1));
}

/// The first batch that stands for no event fails the whole notification,
/// with its own error: no batch is passed over.
pub proof fn lemma_first_failing_batch(params: Seq<ValueView>, at: int)
    requires
        0 <= at < params.len(),
        batch_event(params[at], at as nat) is Err,
        forall|i: int| 0 <= i < at ==> batch_event(#[trigger] params[i], i as nat) is Ok,
    ensures
        redraw_events(params) is Err,
        redraw_events(params)->Err_0 == batch_event(params[at], at as nat)->Err_0,
    decreases params.len(),
{
    let init = params.drop_last();
    if at == params.len() - 1 {
        lemma_batches_read(init);
    } else {
        assert(init[at] == params[at]);
        assert forall|i: int| 0 <= i < at implies batch_event(#[trigger] init[i], i as nat)
            is Ok by {
            assert(init[i] == params[i]);
        }
        lemma_first_failing_batch(init, at);
    }
}

/// A notification whose batches all stand for events is read.
pub proof fn lemma_batches_read(params: Seq<ValueView>)
    requires
        forall|i: int| 0 <= i < params.len() ==> batch_event(#[trigger] params[i], i as nat) is Ok,
    ensures
        redraw_events(params) is Ok,
    decreases params.len(),
{
    if params.len() > 0 {
        let init = params.drop_last();
        assert forall|i: int| 0 <= i < init.len() implies batch_event(
            #[trigger] init[i],
            i as nat,
        ) is Ok by {
            assert(init[i] == params[i]);
        }
        lemma_batches_read(init);
        assert(params.last() == params[params.len() - 1]);
    }
}

/// Unknown event name: a batch whose name is none of the known ones is not
/// read, and the error carries the name.
pub proof fn lemma_unknown_event(items: Seq<ValueView>, name: Seq<char>, batch: nat)
    requires
        items.len() > 0,
        items[0] == ValueView::Str(name),
        event_kind(name) is None,
    ensures
        batch_event(ValueView::Array(items), batch) == Err::<UiEventView, DecodeErrorView>(
            DecodeErrorView::UnknownEvent(name),
        ),
{
}

/// Color sentinel preservation: a value stands for "no color" if and only if
/// it is the sentinel -1, and for black if and only if it is 0; the two are
/// never confused.
pub proof fn lemma_unset_color_is_kept(v: ValueView)
    ensures
        color_of(v) == Some(Color::Unset) <==> v == ValueView::Int(UNSET as int),
        color_of(v) == Some(Color::Rgb(0)) <==> v == ValueView::Int(0),
        Color::Unset != Color::Rgb(0),
{
}

/// Color sentinel preservation: the colors of a `default_colors_set` record
/// are those that its first three fields stand for, the sentinel included.
pub proof fn lemma_default_colors_keep_unset(v: ValueView)
    ensures
        DefaultColorsSet::parse(v) matches Ok(record) ==> color_of(fields_of(v)[0]) == Some(
            record.rgb_fg,
        ) && color_of(fields_of(v)[1]) == Some(record.rgb_bg) && color_of(fields_of(v)[2])
            == Some(record.rgb_sp),
{
}

} // verus!
