//! What a UI does with the events, as far as it is a matter of rules and not
//! of drawing.

pub mod buffer;
pub mod grid;
pub mod popupmenu;

pub use buffer::{Cell, GridBuffer};
pub use grid::{Cursor, Grid};
pub use popupmenu::Popupmenu;

use crate::types::color::{Color, HlAttr};
use crate::types::redraw::{event_kind_of, EventKind, UiEvent, UiEventView};
use crate::types::uievents::{
    DefaultColorsSet, GridLine, GridLineView, GridResize, HlAttrDefine, HlAttrDefineView,
};
use std::collections::HashMap;
use vstd::prelude::*;

verus! {

broadcast use vstd::std_specs::hash::group_hash_axioms;

/// The colors that the UI draws with.
pub struct Colors {
    /// The foreground of text that no highlight colors.
    pub fg: Color,
    /// The background of text that no highlight colors.
    pub bg: Color,
    /// The color of underlines and the like, where no highlight gives one.
    pub sp: Color,
    /// The attributes of each highlight, by its id.
    pub hls: HashMap<i64, HlAttr>,
}

/// Mathematical model of [`Colors`].
pub struct ColorsView {
    pub fg: Color,
    pub bg: Color,
    pub sp: Color,
    pub hls: Map<i64, HlAttr>,
}

impl View for Colors {
    type V = ColorsView;

    open spec fn view(&self) -> ColorsView {
        ColorsView { fg: self.fg, bg: self.bg, sp: self.sp, hls: self.hls@ }
    }
}

impl ColorsView {
    /// The colors after these `default_colors_set` records, taken in order:
    /// the last one stands.
    pub open spec fn with_defaults(self, records: Seq<DefaultColorsSet>) -> ColorsView {
        if records.len() == 0 {
            self
        } else {
            ColorsView {
                fg: records.last().rgb_fg,
                bg: records.last().rgb_bg,
                sp: records.last().rgb_sp,
                ..self
            }
        }
    }

    /// The colors after these `hl_attr_define` records, taken in order: each
    /// gives its id the RGB attributes, a later record over an earlier one.
    pub open spec fn with_highlights(self, records: Seq<HlAttrDefineView>) -> ColorsView
        decreases records.len(),
    {
        if records.len() == 0 {
            self
        } else {
            let before = self.with_highlights(records.drop_last());
            ColorsView {
                hls: before.hls.insert(records.last().id, records.last().rgb_attrs),
                ..before
            }
        }
    }

    /// The colors after the event.
    pub open spec fn after(self, event: UiEventView) -> ColorsView {
        match event {
            UiEventView::DefaultColorsSet(records) => self.with_defaults(records),
            UiEventView::HlAttrDefine(records) => self.with_highlights(records),
            _ => self,
        }
    }
}

impl Colors {
    /// No color set and no highlight defined.
    pub fn new() -> (c: Colors)
        ensures
            c@ == (ColorsView {
                fg: Color::Unset,
                bg: Color::Unset,
                sp: Color::Unset,
                hls: Map::empty(),
            }),
    {
        Colors { fg: Color::Unset, bg: Color::Unset, sp: Color::Unset, hls: HashMap::new() }
    }

    /// The attributes of the highlight `id`, where it is defined.
    pub fn highlight(&self, id: i64) -> (r: Option<HlAttr>)
        ensures
            r == (if self@.hls.contains_key(id) {
                Some(self@.hls[id])
            } else {
                None
            }),
    {
        match self.hls.get(&id) {
            Some(attr) => Some(*attr),
            None => None,
        }
    }
}

/// What the event asks of the shell, the part of the UI that holds the
/// grids.
#[derive(Clone, Debug, PartialEq, Eq)]
pub enum ShellAction {
    /// Nothing.
    Nothing,
    /// Resize these grids, in order.
    Resize(Vec<GridResize>),
    /// Put these lines, in order.
    Lines(Vec<GridLine>),
    /// Show what was put, with the colors as they now are.
    Flush,
}

/// Mathematical model of a [`ShellAction`].
pub enum ShellActionView {
    Nothing,
    Resize(Seq<GridResize>),
    Lines(Seq<GridLineView>),
    Flush,
}

impl DeepView for ShellAction {
    type V = ShellActionView;

    open spec fn deep_view(&self) -> ShellActionView {
        match self {
            ShellAction::Nothing => ShellActionView::Nothing,
            ShellAction::Resize(records) => ShellActionView::Resize(records.deep_view()),
            ShellAction::Lines(records) => ShellActionView::Lines(records.deep_view()),
            ShellAction::Flush => ShellActionView::Flush,
        }
    }
}

/// What the event asks of the shell.
pub open spec fn shell_action(event: UiEventView) -> ShellActionView {
    match event {
        UiEventView::GridResize(records) => ShellActionView::Resize(records),
        UiEventView::GridLine(records) => ShellActionView::Lines(records),
        UiEventView::Flush => ShellActionView::Flush,
        _ => ShellActionView::Nothing,
    }
}

/// Whether the UI has a rule for events of this kind.
pub open spec fn handled(kind: EventKind) -> bool {
    match kind {
        EventKind::OptionSet
        | EventKind::DefaultColorsSet
        | EventKind::HlAttrDefine
        | EventKind::HlGroupSet
        | EventKind::GridResize
        | EventKind::GridClear
        | EventKind::GridLine
        | EventKind::UpdateMenu
        | EventKind::WinViewport
        | EventKind::GridCursorGoto
        | EventKind::ModeInfoSet
        | EventKind::ModeChange
        | EventKind::Flush
        | EventKind::SetIcon
        | EventKind::SetTitle
        | EventKind::MouseOn
        | EventKind::MouseOff => true,
        _ => false,
    }
}

/// Whether the UI has a rule for events of this kind.
pub fn is_handled(kind: EventKind) -> (r: bool)
    ensures
        r == handled(kind),
{
    match kind {
        EventKind::OptionSet
        | EventKind::DefaultColorsSet
        | EventKind::HlAttrDefine
        | EventKind::HlGroupSet
        | EventKind::GridResize
        | EventKind::GridClear
        | EventKind::GridLine
        | EventKind::UpdateMenu
        | EventKind::WinViewport
        | EventKind::GridCursorGoto
        | EventKind::ModeInfoSet
        | EventKind::ModeChange
        | EventKind::Flush
        | EventKind::SetIcon
        | EventKind::SetTitle
        | EventKind::MouseOn
        | EventKind::MouseOff => true,
        _ => false,
    }
}

/// Takes in one event: brings the colors up to date and says what the shell
/// is to do.
pub fn handle_ui_event(colors: &mut Colors, event: UiEvent) -> (action: ShellAction)
    requires
        handled(event_kind_of(event.deep_view())),
    ensures
        final(colors)@ == old(colors)@.after(event.deep_view()),
        action.deep_view() == shell_action(event.deep_view()),
{
    match event {
        UiEvent::DefaultColorsSet(records) => {
            let mut i: usize = 0;
            while i < records.len()
                invariant
                    i <= records@.len(),
                    colors@ == old(colors)@.with_defaults(records@.take(i as int)),
                decreases records@.len() - i,
            {
                colors.fg = records[i].rgb_fg;
                colors.bg = records[i].rgb_bg;
                colors.sp = records[i].rgb_sp;
                i = i + 1;
            }
            assert(records@.take(i as int) =~= records.deep_view());
            ShellAction::Nothing
        },
        UiEvent::HlAttrDefine(records) => {
            let ghost model = records.deep_view();
            let mut i: usize = 0;
            while i < records.len()
                invariant
                    i <= records@.len(),
                    model == records.deep_view(),
                    colors@ == old(colors)@.with_highlights(model.take(i as int)),
                decreases records@.len() - i,
            {
                proof {
                    let upto = model.take(i + 1);
                    assert(upto.drop_last() =~= model.take(i as int));
                    assert(upto.last() == records@[i as int].deep_view());
                }
                colors.hls.insert(records[i].id, records[i].rgb_attrs);
                i = i + 1;
            }
            assert(model.take(i as int) =~= model);
            ShellAction::Nothing
        },
        UiEvent::GridResize(records) => ShellAction::Resize(records),
        UiEvent::GridLine(records) => ShellAction::Lines(records),
        UiEvent::Flush => ShellAction::Flush,
        _ => ShellAction::Nothing,
    }
}

/// What `popupmenu_select` asks of the popup menu.
#[derive(Clone, Copy, Debug, PartialEq, Eq, Structural)]
pub enum Selection {
    /// No item is selected.
    Nothing,
    /// The item at this place is selected and scrolled into view.
    Item(u32),
}

impl Selection {
    /// The selection that `n` stands for: none for a negative `n`, else the
    /// item at place `n`, reduced to 32 bits.
    pub fn of(n: i64) -> (s: Selection)
        ensures
            n < 0 ==> s == Selection::Nothing,
            n >= 0 ==> s == Selection::Item((n % 0x1_0000_0000) as u32),
    {
        if n < 0 {
            Selection::Nothing
        } else {
            Selection::Item((n % 0x1_0000_0000) as u32)
        }
    }
}

impl GridResize {
    /// The size as numbers of columns and rows, where neither is negative.
    pub fn size(&self) -> (r: Option<(usize, usize)>)
        ensures
            r is Some <==> 0 <= self.width <= usize::MAX && 0 <= self.height <= usize::MAX,
            r matches Some((w, h)) ==> w == self.width && h == self.height,
    {
        if self.width < 0 || self.height < 0 {
            return None;
        }
        if self.width as u64 > usize::MAX as u64 || self.height as u64 > usize::MAX as u64 {
            return None;
        }
        Some((self.width as usize, self.height as usize))
    }
}

} // verus!
