//! Redraw notifications as sequences of typed events.
//!
//! The parameters of a `redraw` notification are batches. A batch is an
//! array that starts with the name of an event and goes on with the
//! occurrences of that event, each an array of positional fields. Every
//! batch becomes one [`UiEvent`] that holds the records of its occurrences in
//! order; batches are not merged, also where two in a row name the same
//! event.

use crate::types::fields::{decode_each, parse_each, same_text, Decode};
use crate::types::uievents::{
    DefaultColorsSet, GridClear, GridCursorGoto, GridDestroy, GridLine, GridLineView, GridResize,
    GridScroll, HlAttrDefine, HlAttrDefineView, HlGroupSet, HlGroupSetView, ModeChange,
    ModeChangeView, ModeInfoSet, ModeInfoSetView, NoFields, OptionSet, OptionSetView,
    PopupmenuSelect, PopupmenuShow, PopupmenuShowView, SetIcon, SetIconView, SetTitle,
    SetTitleView, WinViewport,
};
use crate::value::{Value, ValueView};
use vstd::prelude::*;

verus! {

/// The kinds of redraw event that the library knows.
#[derive(Clone, Copy, Debug, PartialEq, Eq, Hash, Structural)]
pub enum EventKind {
    /// `grid_line`: a line of a grid gets new cells.
    GridLine,
    /// `grid_resize`: a grid gets a size.
    GridResize,
    /// `grid_clear`: a grid is emptied.
    GridClear,
    /// `grid_destroy`: a grid is gone.
    GridDestroy,
    /// `grid_cursor_goto`: the cursor moves.
    GridCursorGoto,
    /// `grid_scroll`: a region of a grid scrolls.
    GridScroll,
    /// `default_colors_set`: the default colors.
    DefaultColorsSet,
    /// `hl_attr_define`: a highlight gets its attributes.
    HlAttrDefine,
    /// `hl_group_set`: a highlight group maps to a highlight.
    HlGroupSet,
    /// `option_set`: a UI option gets a value.
    OptionSet,
    /// `mode_info_set`: the list of modes.
    ModeInfoSet,
    /// `mode_change`: the editor is in another mode.
    ModeChange,
    /// `set_title`: the window's title.
    SetTitle,
    /// `set_icon`: the window's title when minimized.
    SetIcon,
    /// `win_viewport`: what a window shows of its buffer.
    WinViewport,
    /// `popupmenu_show`: the popup menu opens.
    PopupmenuShow,
    /// `popupmenu_select`: an item of the popup menu is selected.
    PopupmenuSelect,
    /// `popupmenu_hide`: the popup menu closes.
    PopupmenuHide,
    /// `flush`: the screen is complete and may be shown.
    Flush,
    /// `update_menu`: the menus changed.
    UpdateMenu,
    /// `mouse_on`: the editor takes mouse input.
    MouseOn,
    /// `mouse_off`: the editor takes no mouse input.
    MouseOff,
    /// `busy_start`: the editor is busy; the cursor hides.
    BusyStart,
    /// `busy_stop`: the editor is no longer busy.
    BusyStop,
    /// `bell`: ring the bell.
    Bell,
    /// `visual_bell`: flash in place of the bell.
    VisualBell,
    /// `suspend`: the editor is suspended.
    Suspend,
}

/// The kind of event that `name` names, if it names one. Names are told
/// apart to the letter: case counts.
pub open spec fn event_kind(name: Seq<char>) -> Option<EventKind> {
    if name == "grid_line"@ {
        Some(EventKind::GridLine)
    } else if name == "grid_resize"@ {
        Some(EventKind::GridResize)
    } else if name == "grid_clear"@ {
        Some(EventKind::GridClear)
    } else if name == "grid_destroy"@ {
        Some(EventKind::GridDestroy)
    } else if name == "grid_cursor_goto"@ {
        Some(EventKind::GridCursorGoto)
    } else if name == "grid_scroll"@ {
        Some(EventKind::GridScroll)
    } else if name == "default_colors_set"@ {
        Some(EventKind::DefaultColorsSet)
    } else if name == "hl_attr_define"@ {
        Some(EventKind::HlAttrDefine)
    } else if name == "hl_group_set"@ {
        Some(EventKind::HlGroupSet)
    } else if name == "option_set"@ {
        Some(EventKind::OptionSet)
    } else if name == "mode_info_set"@ {
        Some(EventKind::ModeInfoSet)
    } else if name == "mode_change"@ {
        Some(EventKind::ModeChange)
    } else if name == "set_title"@ {
        Some(EventKind::SetTitle)
    } else if name == "set_icon"@ {
        Some(EventKind::SetIcon)
    } else if name == "win_viewport"@ {
        Some(EventKind::WinViewport)
    } else if name == "popupmenu_show"@ {
        Some(EventKind::PopupmenuShow)
    } else if name == "popupmenu_select"@ {
        Some(EventKind::PopupmenuSelect)
    } else if name == "popupmenu_hide"@ {
        Some(EventKind::PopupmenuHide)
    } else if name == "flush"@ {
        Some(EventKind::Flush)
    } else if name == "update_menu"@ {
        Some(EventKind::UpdateMenu)
    } else if name == "mouse_on"@ {
        Some(EventKind::MouseOn)
    } else if name == "mouse_off"@ {
        Some(EventKind::MouseOff)
    } else if name == "busy_start"@ {
        Some(EventKind::BusyStart)
    } else if name == "busy_stop"@ {
        Some(EventKind::BusyStop)
    } else if name == "bell"@ {
        Some(EventKind::Bell)
    } else if name == "visual_bell"@ {
        Some(EventKind::VisualBell)
    } else if name == "suspend"@ {
        Some(EventKind::Suspend)
    } else {
        None
    }
}

impl EventKind {
    /// The kind of event that `name` names.
    pub fn from_name(name: &str) -> (r: Option<EventKind>)
        ensures
            r == event_kind(name@),
    {
        if same_text(name, "grid_line") {
            Some(EventKind::GridLine)
        } else if same_text(name, "grid_resize") {
            Some(EventKind::GridResize)
        } else if same_text(name, "grid_clear") {
            Some(EventKind::GridClear)
        } else if same_text(name, "grid_destroy") {
            Some(EventKind::GridDestroy)
        } else if same_text(name, "grid_cursor_goto") {
            Some(EventKind::GridCursorGoto)
        } else if same_text(name, "grid_scroll") {
            Some(EventKind::GridScroll)
        } else if same_text(name, "default_colors_set") {
            Some(EventKind::DefaultColorsSet)
        } else if same_text(name, "hl_attr_define") {
            Some(EventKind::HlAttrDefine)
        } else if same_text(name, "hl_group_set") {
            Some(EventKind::HlGroupSet)
        } else if same_text(name, "option_set") {
            Some(EventKind::OptionSet)
        } else if same_text(name, "mode_info_set") {
            Some(EventKind::ModeInfoSet)
        } else if same_text(name, "mode_change") {
            Some(EventKind::ModeChange)
        } else if same_text(name, "set_title") {
            Some(EventKind::SetTitle)
        } else if same_text(name, "set_icon") {
            Some(EventKind::SetIcon)
        } else if same_text(name, "win_viewport") {
            Some(EventKind::WinViewport)
        } else if same_text(name, "popupmenu_show") {
            Some(EventKind::PopupmenuShow)
        } else if same_text(name, "popupmenu_select") {
            Some(EventKind::PopupmenuSelect)
        } else if same_text(name, "popupmenu_hide") {
            Some(EventKind::PopupmenuHide)
        } else if same_text(name, "flush") {
            Some(EventKind::Flush)
        } else if same_text(name, "update_menu") {
            Some(EventKind::UpdateMenu)
        } else if same_text(name, "mouse_on") {
            Some(EventKind::MouseOn)
        } else if same_text(name, "mouse_off") {
            Some(EventKind::MouseOff)
        } else if same_text(name, "busy_start") {
            Some(EventKind::BusyStart)
        } else if same_text(name, "busy_stop") {
            Some(EventKind::BusyStop)
        } else if same_text(name, "bell") {
            Some(EventKind::Bell)
        } else if same_text(name, "visual_bell") {
            Some(EventKind::VisualBell)
        } else if same_text(name, "suspend") {
            Some(EventKind::Suspend)
        } else {
            None
        }
    }
}

/// One batch of a redraw notification: the records of the occurrences of one
/// kind of event, in the order in which they came.
#[derive(Clone, Debug, PartialEq, Eq)]
pub enum UiEvent {
    GridLine(Vec<GridLine>),
    GridResize(Vec<GridResize>),
    GridClear(Vec<GridClear>),
    GridDestroy(Vec<GridDestroy>),
    GridCursorGoto(Vec<GridCursorGoto>),
    GridScroll(Vec<GridScroll>),
    DefaultColorsSet(Vec<DefaultColorsSet>),
    HlAttrDefine(Vec<HlAttrDefine>),
    HlGroupSet(Vec<HlGroupSet>),
    OptionSet(Vec<OptionSet>),
    ModeInfoSet(Vec<ModeInfoSet>),
    ModeChange(Vec<ModeChange>),
    SetTitle(Vec<SetTitle>),
    SetIcon(Vec<SetIcon>),
    WinViewport(Vec<WinViewport>),
    PopupmenuShow(Vec<PopupmenuShow>),
    PopupmenuSelect(Vec<PopupmenuSelect>),
    PopupmenuHide,
    Flush,
    UpdateMenu,
    MouseOn,
    MouseOff,
    BusyStart,
    BusyStop,
    Bell,
    VisualBell,
    Suspend,
}

/// Mathematical model of a [`UiEvent`].
pub enum UiEventView {
    GridLine(Seq<GridLineView>),
    GridResize(Seq<GridResize>),
    GridClear(Seq<GridClear>),
    GridDestroy(Seq<GridDestroy>),
    GridCursorGoto(Seq<GridCursorGoto>),
    GridScroll(Seq<GridScroll>),
    DefaultColorsSet(Seq<DefaultColorsSet>),
    HlAttrDefine(Seq<HlAttrDefineView>),
    HlGroupSet(Seq<HlGroupSetView>),
    OptionSet(Seq<OptionSetView>),
    ModeInfoSet(Seq<ModeInfoSetView>),
    ModeChange(Seq<ModeChangeView>),
    SetTitle(Seq<SetTitleView>),
    SetIcon(Seq<SetIconView>),
    WinViewport(Seq<WinViewport>),
    PopupmenuShow(Seq<PopupmenuShowView>),
    PopupmenuSelect(Seq<PopupmenuSelect>),
    PopupmenuHide,
    Flush,
    UpdateMenu,
    MouseOn,
    MouseOff,
    BusyStart,
    BusyStop,
    Bell,
    VisualBell,
    Suspend,
}

impl DeepView for UiEvent {
    type V = UiEventView;

    open spec fn deep_view(&self) -> UiEventView {
        match self {
            UiEvent::GridLine(records) => UiEventView::GridLine(records.deep_view()),
            UiEvent::GridResize(records) => UiEventView::GridResize(records.deep_view()),
            UiEvent::GridClear(records) => UiEventView::GridClear(records.deep_view()),
            UiEvent::GridDestroy(records) => UiEventView::GridDestroy(records.deep_view()),
            UiEvent::GridCursorGoto(records) => UiEventView::GridCursorGoto(records.deep_view()),
            UiEvent::GridScroll(records) => UiEventView::GridScroll(records.deep_view()),
            UiEvent::DefaultColorsSet(records) => UiEventView::DefaultColorsSet(records.deep_view()),
            UiEvent::HlAttrDefine(records) => UiEventView::HlAttrDefine(records.deep_view()),
            UiEvent::HlGroupSet(records) => UiEventView::HlGroupSet(records.deep_view()),
            UiEvent::OptionSet(records) => UiEventView::OptionSet(records.deep_view()),
            UiEvent::ModeInfoSet(records) => UiEventView::ModeInfoSet(records.deep_view()),
            UiEvent::ModeChange(records) => UiEventView::ModeChange(records.deep_view()),
            UiEvent::SetTitle(records) => UiEventView::SetTitle(records.deep_view()),
            UiEvent::SetIcon(records) => UiEventView::SetIcon(records.deep_view()),
            UiEvent::WinViewport(records) => UiEventView::WinViewport(records.deep_view()),
            UiEvent::PopupmenuShow(records) => UiEventView::PopupmenuShow(records.deep_view()),
            UiEvent::PopupmenuSelect(records) => UiEventView::PopupmenuSelect(records.deep_view()),
            UiEvent::PopupmenuHide => UiEventView::PopupmenuHide,
            UiEvent::Flush => UiEventView::Flush,
            UiEvent::UpdateMenu => UiEventView::UpdateMenu,
            UiEvent::MouseOn => UiEventView::MouseOn,
            UiEvent::MouseOff => UiEventView::MouseOff,
            UiEvent::BusyStart => UiEventView::BusyStart,
            UiEvent::BusyStop => UiEventView::BusyStop,
            UiEvent::Bell => UiEventView::Bell,
            UiEvent::VisualBell => UiEventView::VisualBell,
            UiEvent::Suspend => UiEventView::Suspend,
        }
    }
}

impl UiEvent {
    /// The kind of the event.
    pub fn kind(&self) -> (k: EventKind)
        ensures
            k == event_kind_of(self.deep_view()),
    {
        match self {
            UiEvent::GridLine(_) => EventKind::GridLine,
            UiEvent::GridResize(_) => EventKind::GridResize,
            UiEvent::GridClear(_) => EventKind::GridClear,
            UiEvent::GridDestroy(_) => EventKind::GridDestroy,
            UiEvent::GridCursorGoto(_) => EventKind::GridCursorGoto,
            UiEvent::GridScroll(_) => EventKind::GridScroll,
            UiEvent::DefaultColorsSet(_) => EventKind::DefaultColorsSet,
            UiEvent::HlAttrDefine(_) => EventKind::HlAttrDefine,
            UiEvent::HlGroupSet(_) => EventKind::HlGroupSet,
            UiEvent::OptionSet(_) => EventKind::OptionSet,
            UiEvent::ModeInfoSet(_) => EventKind::ModeInfoSet,
            UiEvent::ModeChange(_) => EventKind::ModeChange,
            UiEvent::SetTitle(_) => EventKind::SetTitle,
            UiEvent::SetIcon(_) => EventKind::SetIcon,
            UiEvent::WinViewport(_) => EventKind::WinViewport,
            UiEvent::PopupmenuShow(_) => EventKind::PopupmenuShow,
            UiEvent::PopupmenuSelect(_) => EventKind::PopupmenuSelect,
            UiEvent::PopupmenuHide => EventKind::PopupmenuHide,
            UiEvent::Flush => EventKind::Flush,
            UiEvent::UpdateMenu => EventKind::UpdateMenu,
            UiEvent::MouseOn => EventKind::MouseOn,
            UiEvent::MouseOff => EventKind::MouseOff,
            UiEvent::BusyStart => EventKind::BusyStart,
            UiEvent::BusyStop => EventKind::BusyStop,
            UiEvent::Bell => EventKind::Bell,
            UiEvent::VisualBell => EventKind::VisualBell,
            UiEvent::Suspend => EventKind::Suspend,
        }
    }
}

/// The kind of an event.
pub open spec fn event_kind_of(event: UiEventView) -> EventKind {
    match event {
        UiEventView::GridLine(_) => EventKind::GridLine,
        UiEventView::GridResize(_) => EventKind::GridResize,
        UiEventView::GridClear(_) => EventKind::GridClear,
        UiEventView::GridDestroy(_) => EventKind::GridDestroy,
        UiEventView::GridCursorGoto(_) => EventKind::GridCursorGoto,
        UiEventView::GridScroll(_) => EventKind::GridScroll,
        UiEventView::DefaultColorsSet(_) => EventKind::DefaultColorsSet,
        UiEventView::HlAttrDefine(_) => EventKind::HlAttrDefine,
        UiEventView::HlGroupSet(_) => EventKind::HlGroupSet,
        UiEventView::OptionSet(_) => EventKind::OptionSet,
        UiEventView::ModeInfoSet(_) => EventKind::ModeInfoSet,
        UiEventView::ModeChange(_) => EventKind::ModeChange,
        UiEventView::SetTitle(_) => EventKind::SetTitle,
        UiEventView::SetIcon(_) => EventKind::SetIcon,
        UiEventView::WinViewport(_) => EventKind::WinViewport,
        UiEventView::PopupmenuShow(_) => EventKind::PopupmenuShow,
        UiEventView::PopupmenuSelect(_) => EventKind::PopupmenuSelect,
        UiEventView::PopupmenuHide => EventKind::PopupmenuHide,
        UiEventView::Flush => EventKind::Flush,
        UiEventView::UpdateMenu => EventKind::UpdateMenu,
        UiEventView::MouseOn => EventKind::MouseOn,
        UiEventView::MouseOff => EventKind::MouseOff,
        UiEventView::BusyStart => EventKind::BusyStart,
        UiEventView::BusyStop => EventKind::BusyStop,
        UiEventView::Bell => EventKind::Bell,
        UiEventView::VisualBell => EventKind::VisualBell,
        UiEventView::Suspend => EventKind::Suspend,
    }
}

/// Failure to read a redraw notification.
#[derive(Clone, Debug, PartialEq, Eq)]
pub enum DecodeError {
    /// The batch at this place is no array that starts with a name.
    MalformedBatch { batch: usize },
    /// A batch names an event that the library does not know.
    UnknownEvent(String),
    /// An occurrence lacks a field, or holds one of the wrong type: the
    /// field at place `field` of the occurrence at place `occurrence`, both
    /// counted from zero, in the batch at place `batch`, which names `event`.
    /// An occurrence that is no array has no fields at all.
    MalformedOccurrence { event: String, batch: usize, occurrence: usize, field: usize },
}

/// Mathematical model of a [`DecodeError`].
pub enum DecodeErrorView {
    MalformedBatch { batch: nat },
    UnknownEvent(Seq<char>),
    MalformedOccurrence { event: Seq<char>, batch: nat, occurrence: nat, field: nat },
}

impl DeepView for DecodeError {
    type V = DecodeErrorView;

    open spec fn deep_view(&self) -> DecodeErrorView {
        match self {
            DecodeError::MalformedBatch { batch } => DecodeErrorView::MalformedBatch {
                batch: *batch as nat,
            },
            DecodeError::UnknownEvent(name) => DecodeErrorView::UnknownEvent(name@),
            DecodeError::MalformedOccurrence {
                event,
                batch,
                occurrence,
                field,
            } => DecodeErrorView::MalformedOccurrence {
                event: event@,
                batch: *batch as nat,
                occurrence: *occurrence as nat,
                field: *field as nat,
            },
        }
    }
}

/// Whether `r` is the outcome `expected`, both taken by their models.
pub open spec fn read_as<T: DeepView>(
    r: Result<T, DecodeError>,
    expected: Result<T::V, DecodeErrorView>,
) -> bool {
    match expected {
        Ok(x) => r matches Ok(y) && y.deep_view() == x,
        Err(e) => r matches Err(f) && f.deep_view() == e,
    }
}

/// The records of the occurrences in the batch `items`, which names `event`
/// and stands at place `batch`: what follows the name, read one by one.
pub open spec fn occurrences<T: Decode>(event: Seq<char>, batch: nat, items: Seq<ValueView>)
    -> Result<Seq<T::V>, DecodeErrorView> {
    match parse_each::<T>(items.skip(1)) {
        Ok(records) => Ok(records),
        Err((occurrence, field)) => Err(
            DecodeErrorView::MalformedOccurrence { event, batch, occurrence, field },
        ),
    }
}

/// The event of kind `kind` that the batch `items` stands for.
pub open spec fn event_of_kind(
    kind: EventKind,
    event: Seq<char>,
    batch: nat,
    items: Seq<ValueView>,
) -> Result<UiEventView, DecodeErrorView> {
    match kind {
        EventKind::GridLine => match occurrences::<GridLine>(event, batch, items) {
            Ok(records) => Ok(UiEventView::GridLine(records)),
            Err(e) => Err(e),
        },
        EventKind::GridResize => match occurrences::<GridResize>(event, batch, items) {
            Ok(records) => Ok(UiEventView::GridResize(records)),
            Err(e) => Err(e),
        },
        EventKind::GridClear => match occurrences::<GridClear>(event, batch, items) {
            Ok(records) => Ok(UiEventView::GridClear(records)),
            Err(e) => Err(e),
        },
        EventKind::GridDestroy => match occurrences::<GridDestroy>(event, batch, items) {
            Ok(records) => Ok(UiEventView::GridDestroy(records)),
            Err(e) => Err(e),
        },
        EventKind::GridCursorGoto => match occurrences::<GridCursorGoto>(event, batch, items) {
            Ok(records) => Ok(UiEventView::GridCursorGoto(records)),
            Err(e) => Err(e),
        },
        EventKind::GridScroll => match occurrences::<GridScroll>(event, batch, items) {
            Ok(records) => Ok(UiEventView::GridScroll(records)),
            Err(e) => Err(e),
        },
        EventKind::DefaultColorsSet => match occurrences::<DefaultColorsSet>(event, batch, items) {
            Ok(records) => Ok(UiEventView::DefaultColorsSet(records)),
            Err(e) => Err(e),
        },
        EventKind::HlAttrDefine => match occurrences::<HlAttrDefine>(event, batch, items) {
            Ok(records) => Ok(UiEventView::HlAttrDefine(records)),
            Err(e) => Err(e),
        },
        EventKind::HlGroupSet => match occurrences::<HlGroupSet>(event, batch, items) {
            Ok(records) => Ok(UiEventView::HlGroupSet(records)),
            Err(e) => Err(e),
        },
        EventKind::OptionSet => match occurrences::<OptionSet>(event, batch, items) {
            Ok(records) => Ok(UiEventView::OptionSet(records)),
            Err(e) => Err(e),
        },
        EventKind::ModeInfoSet => match occurrences::<ModeInfoSet>(event, batch, items) {
            Ok(records) => Ok(UiEventView::ModeInfoSet(records)),
            Err(e) => Err(e),
        },
        EventKind::ModeChange => match occurrences::<ModeChange>(event, batch, items) {
            Ok(records) => Ok(UiEventView::ModeChange(records)),
            Err(e) => Err(e),
        },
        EventKind::SetTitle => match occurrences::<SetTitle>(event, batch, items) {
            Ok(records) => Ok(UiEventView::SetTitle(records)),
            Err(e) => Err(e),
        },
        EventKind::SetIcon => match occurrences::<SetIcon>(event, batch, items) {
            Ok(records) => Ok(UiEventView::SetIcon(records)),
            Err(e) => Err(e),
        },
        EventKind::WinViewport => match occurrences::<WinViewport>(event, batch, items) {
            Ok(records) => Ok(UiEventView::WinViewport(records)),
            Err(e) => Err(e),
        },
        EventKind::PopupmenuShow => match occurrences::<PopupmenuShow>(event, batch, items) {
            Ok(records) => Ok(UiEventView::PopupmenuShow(records)),
            Err(e) => Err(e),
        },
        EventKind::PopupmenuSelect => match occurrences::<PopupmenuSelect>(event, batch, items) {
            Ok(records) => Ok(UiEventView::PopupmenuSelect(records)),
            Err(e) => Err(e),
        },
        EventKind::PopupmenuHide => match occurrences::<NoFields>(event, batch, items) {
            Ok(_) => Ok(UiEventView::PopupmenuHide),
            Err(e) => Err(e),
        },
        EventKind::Flush => match occurrences::<NoFields>(event, batch, items) {
            Ok(_) => Ok(UiEventView::Flush),
            Err(e) => Err(e),
        },
        EventKind::UpdateMenu => match occurrences::<NoFields>(event, batch, items) {
            Ok(_) => Ok(UiEventView::UpdateMenu),
            Err(e) => Err(e),
        },
        EventKind::MouseOn => match occurrences::<NoFields>(event, batch, items) {
            Ok(_) => Ok(UiEventView::MouseOn),
            Err(e) => Err(e),
        },
        EventKind::MouseOff => match occurrences::<NoFields>(event, batch, items) {
            Ok(_) => Ok(UiEventView::MouseOff),
            Err(e) => Err(e),
        },
        EventKind::BusyStart => match occurrences::<NoFields>(event, batch, items) {
            Ok(_) => Ok(UiEventView::BusyStart),
            Err(e) => Err(e),
        },
        EventKind::BusyStop => match occurrences::<NoFields>(event, batch, items) {
            Ok(_) => Ok(UiEventView::BusyStop),
            Err(e) => Err(e),
        },
        EventKind::Bell => match occurrences::<NoFields>(event, batch, items) {
            Ok(_) => Ok(UiEventView::Bell),
            Err(e) => Err(e),
        },
        EventKind::VisualBell => match occurrences::<NoFields>(event, batch, items) {
            Ok(_) => Ok(UiEventView::VisualBell),
            Err(e) => Err(e),
        },
        EventKind::Suspend => match occurrences::<NoFields>(event, batch, items) {
            Ok(_) => Ok(UiEventView::Suspend),
            Err(e) => Err(e),
        },
    }
}

/// The event that the batch `v` at place `batch` stands for.
pub open spec fn batch_event(v: ValueView, batch: nat) -> Result<UiEventView, DecodeErrorView> {
    match v {
        ValueView::Array(items) => {
            if items.len() > 0 && items[0] is Str {
                match event_kind(items[0]->Str_0) {
                    Some(kind) => event_of_kind(kind, items[0]->Str_0, batch, items),
                    None => Err(DecodeErrorView::UnknownEvent(items[0]->Str_0)),
                }
            } else {
                Err(DecodeErrorView::MalformedBatch { batch })
            }
        },
        _ => Err(DecodeErrorView::MalformedBatch { batch }),
    }
}

/// The events that the parameters of a redraw notification stand for: one
/// for each batch, in order; or else the error of the first batch that
/// stands for none.
pub open spec fn redraw_events(params: Seq<ValueView>) -> Result<Seq<UiEventView>, DecodeErrorView>
    decreases params.len(),
{
    if params.len() == 0 {
        Ok(Seq::empty())
    } else {
        match redraw_events(params.drop_last()) {
            Err(e) => Err(e),
            Ok(events) => match batch_event(params.last(), (params.len() - 1) as nat) {
                Ok(event) => Ok(events.push(event)),
                Err(e) => Err(e),
            },
        }
    }
}

/// Reads the records of the occurrences in the batch `items`.
fn read_occurrences<T: Decode>(event: &str, batch: usize, items: &Vec<Value>) -> (r: Result<
    Vec<T>,
    DecodeError,
>)
    requires
        items@.len() > 0,
    ensures
        read_as(r, occurrences::<T>(event@, batch as nat, items.deep_view())),
{
    match decode_each::<T>(items, 1) {
        Ok(records) => Ok(records),
        Err((occurrence, field)) => Err(
            DecodeError::MalformedOccurrence { event: event.to_owned(), batch, occurrence, field },
        ),
    }
}

/// Reads the event of kind `kind` that the batch `items` stands for.
fn read_event(kind: EventKind, event: &str, batch: usize, items: &Vec<Value>) -> (r: Result<
    UiEvent,
    DecodeError,
>)
    requires
        items@.len() > 0,
    ensures
        read_as(r, event_of_kind(kind, event@, batch as nat, items.deep_view())),
{
    match kind {
        EventKind::GridLine => match read_occurrences::<GridLine>(event, batch, items) {
            Ok(records) => Ok(UiEvent::GridLine(records)),
            Err(e) => Err(e),
        },
        EventKind::GridResize => match read_occurrences::<GridResize>(event, batch, items) {
            Ok(records) => Ok(UiEvent::GridResize(records)),
            Err(e) => Err(e),
        },
        EventKind::GridClear => match read_occurrences::<GridClear>(event, batch, items) {
            Ok(records) => Ok(UiEvent::GridClear(records)),
            Err(e) => Err(e),
        },
        EventKind::GridDestroy => match read_occurrences::<GridDestroy>(event, batch, items) {
            Ok(records) => Ok(UiEvent::GridDestroy(records)),
            Err(e) => Err(e),
        },
        EventKind::GridCursorGoto => match read_occurrences::<GridCursorGoto>(event, batch, items) {
            Ok(records) => Ok(UiEvent::GridCursorGoto(records)),
            Err(e) => Err(e),
        },
        EventKind::GridScroll => match read_occurrences::<GridScroll>(event, batch, items) {
            Ok(records) => Ok(UiEvent::GridScroll(records)),
            Err(e) => Err(e),
        },
        EventKind::DefaultColorsSet => match read_occurrences::<DefaultColorsSet>(event, batch, items) {
            Ok(records) => Ok(UiEvent::DefaultColorsSet(records)),
            Err(e) => Err(e),
        },
        EventKind::HlAttrDefine => match read_occurrences::<HlAttrDefine>(event, batch, items) {
            Ok(records) => Ok(UiEvent::HlAttrDefine(records)),
            Err(e) => Err(e),
        },
        EventKind::HlGroupSet => match read_occurrences::<HlGroupSet>(event, batch, items) {
            Ok(records) => Ok(UiEvent::HlGroupSet(records)),
            Err(e) => Err(e),
        },
        EventKind::OptionSet => match read_occurrences::<OptionSet>(event, batch, items) {
            Ok(records) => Ok(UiEvent::OptionSet(records)),
            Err(e) => Err(e),
        },
        EventKind::ModeInfoSet => match read_occurrences::<ModeInfoSet>(event, batch, items) {
            Ok(records) => Ok(UiEvent::ModeInfoSet(records)),
            Err(e) => Err(e),
        },
        EventKind::ModeChange => match read_occurrences::<ModeChange>(event, batch, items) {
            Ok(records) => Ok(UiEvent::ModeChange(records)),
            Err(e) => Err(e),
        },
        EventKind::SetTitle => match read_occurrences::<SetTitle>(event, batch, items) {
            Ok(records) => Ok(UiEvent::SetTitle(records)),
            Err(e) => Err(e),
        },
        EventKind::SetIcon => match read_occurrences::<SetIcon>(event, batch, items) {
            Ok(records) => Ok(UiEvent::SetIcon(records)),
            Err(e) => Err(e),
        },
        EventKind::WinViewport => match read_occurrences::<WinViewport>(event, batch, items) {
            Ok(records) => Ok(UiEvent::WinViewport(records)),
            Err(e) => Err(e),
        },
        EventKind::PopupmenuShow => match read_occurrences::<PopupmenuShow>(event, batch, items) {
            Ok(records) => Ok(UiEvent::PopupmenuShow(records)),
            Err(e) => Err(e),
        },
        EventKind::PopupmenuSelect => match read_occurrences::<PopupmenuSelect>(event, batch, items) {
            Ok(records) => Ok(UiEvent::PopupmenuSelect(records)),
            Err(e) => Err(e),
        },
        EventKind::PopupmenuHide => match read_occurrences::<NoFields>(event, batch, items) {
            Ok(_) => Ok(UiEvent::PopupmenuHide),
            Err(e) => Err(e),
        },
        EventKind::Flush => match read_occurrences::<NoFields>(event, batch, items) {
            Ok(_) => Ok(UiEvent::Flush),
            Err(e) => Err(e),
        },
        EventKind::UpdateMenu => match read_occurrences::<NoFields>(event, batch, items) {
            Ok(_) => Ok(UiEvent::UpdateMenu),
            Err(e) => Err(e),
        },
        EventKind::MouseOn => match read_occurrences::<NoFields>(event, batch, items) {
            Ok(_) => Ok(UiEvent::MouseOn),
            Err(e) => Err(e),
        },
        EventKind::MouseOff => match read_occurrences::<NoFields>(event, batch, items) {
            Ok(_) => Ok(UiEvent::MouseOff),
            Err(e) => Err(e),
        },
        EventKind::BusyStart => match read_occurrences::<NoFields>(event, batch, items) {
            Ok(_) => Ok(UiEvent::BusyStart),
            Err(e) => Err(e),
        },
        EventKind::BusyStop => match read_occurrences::<NoFields>(event, batch, items) {
            Ok(_) => Ok(UiEvent::BusyStop),
            Err(e) => Err(e),
        },
        EventKind::Bell => match read_occurrences::<NoFields>(event, batch, items) {
            Ok(_) => Ok(UiEvent::Bell),
            Err(e) => Err(e),
        },
        EventKind::VisualBell => match read_occurrences::<NoFields>(event, batch, items) {
            Ok(_) => Ok(UiEvent::VisualBell),
            Err(e) => Err(e),
        },
        EventKind::Suspend => match read_occurrences::<NoFields>(event, batch, items) {
            Ok(_) => Ok(UiEvent::Suspend),
            Err(e) => Err(e),
        },
    }
}

/// Reads the event that the batch `v` at place `batch` stands for.
pub fn decode_batch(v: &Value, batch: usize) -> (r: Result<UiEvent, DecodeError>)
    ensures
        read_as(r, batch_event(v@, batch as nat)),
{
    let items = match v.as_array() {
        Some(items) => items,
        None => {
            return Err(DecodeError::MalformedBatch { batch });
        },
    };
    if items.len() == 0 {
        return Err(DecodeError::MalformedBatch { batch });
    }
    let name = match items[0].as_str() {
        Some(name) => name,
        None => {
            return Err(DecodeError::MalformedBatch { batch });
        },
    };
    match EventKind::from_name(name) {
        Some(kind) => read_event(kind, name, batch, items),
        None => Err(DecodeError::UnknownEvent(name.to_owned())),
    }
}

/// Once a batch stands for no event, the notification stands for none.
proof fn lemma_redraw_fails(params: Seq<ValueView>, upto: int)
    requires
        0 <= upto <= params.len(),
        redraw_events(params.take(upto)) is Err,
    ensures
        redraw_events(params) == redraw_events(params.take(upto)),
    decreases params.len(),
{
    if upto < params.len() {
        assert(params.drop_last().take(upto) =~= params.take(upto));
        lemma_redraw_fails(params.drop_last(), upto);
    } else {
        assert(params.take(upto) =~= params);
    }
}

/// Reads the parameters of a redraw notification as typed events: one for
/// each batch, in order.
///
/// Fails on the first batch that is malformed or names an unknown event, and
/// hands out no event then.
pub fn decode_redraw_params(params: Vec<Value>) -> (r: Result<Vec<UiEvent>, DecodeError>)
    ensures
        read_as(r, redraw_events(params.deep_view())),
{
    let ghost model = params.deep_view();
    let mut events: Vec<UiEvent> = Vec::new();
    let mut i: usize = 0;
    assert(model.take(0) =~= Seq::empty());
    assert(events.deep_view() =~= Seq::empty());
    while i < params.len()
        invariant
            i <= params@.len(),
            model == params.deep_view(),
            redraw_events(model.take(i as int)) == Ok::<Seq<UiEventView>, DecodeErrorView>(
                events.deep_view(),
            ),
        decreases params@.len() - i,
    {
        let ghost before = events.deep_view();
        proof {
            let upto = model.take(i + 1);
            assert(upto.drop_last() =~= model.take(i as int));
            assert(upto.last() == params@[i as int]@);
        }
        match decode_batch(&params[i], i) {
            Ok(event) => {
                events.push(event);
                assert(events.deep_view() =~= before.push(event.deep_view()));
            },
            Err(e) => {
                proof {
                    lemma_redraw_fails(model, i + 1);
                }
                return Err(e);
            },
        }
        i = i + 1;
    }
    assert(model.take(i as int) =~= model);
    Ok(events)
}

} // verus!
