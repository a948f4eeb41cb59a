//! The popup menu: its items and which of them is selected.

use crate::types::uievents::{PopupmenuItem, PopupmenuItemView};
use crate::ui::Selection;
use vstd::prelude::*;

verus! {

/// The state of the popup menu.
pub struct Popupmenu {
    items: Vec<PopupmenuItem>,
    selected: Selection,
}

/// Mathematical model of a [`Popupmenu`].
pub struct PopupmenuView {
    pub items: Seq<PopupmenuItemView>,
    pub selected: Selection,
}

impl View for Popupmenu {
    type V = PopupmenuView;

    closed spec fn view(&self) -> PopupmenuView {
        PopupmenuView { items: self.items.deep_view(), selected: self.selected }
    }
}

impl Popupmenu {
    /// A menu without items.
    pub fn new() -> (p: Popupmenu)
        ensures
            p@ == (PopupmenuView { items: Seq::empty(), selected: Selection::Nothing }),
    {
        let p = Popupmenu { items: Vec::new(), selected: Selection::Nothing };
        assert(p.items.deep_view() =~= Seq::empty());
        p
    }

    /// Gives the menu these items, none of them selected.
    pub fn set_items(&mut self, items: Vec<PopupmenuItem>)
        ensures
            final(self)@ == (PopupmenuView {
                items: items.deep_view(),
                selected: Selection::Nothing,
            }),
    {
        self.items = items;
        self.selected = Selection::Nothing;
    }

    /// The items of the menu.
    pub fn store(&self) -> (items: &Vec<PopupmenuItem>)
        ensures
            items.deep_view() == self@.items,
    {
        &self.items
    }

    /// The selection.
    pub fn selected(&self) -> (s: Selection)
        ensures
            s == self@.selected,
    {
        self.selected
    }

    /// Takes in a `popupmenu_select` event: a negative `n` selects nothing,
    /// any other the item at place `n`, which is then to be scrolled into
    /// view. Says what is selected now.
    pub fn select(&mut self, n: i64) -> (s: Selection)
        ensures
            n < 0 ==> s == Selection::Nothing,
            n >= 0 ==> s == Selection::Item((n % 0x1_0000_0000) as u32),
            final(self)@ == (PopupmenuView { selected: s, ..old(self)@ }),
    {
        let s = Selection::of(n);
        self.selected = s;
        s
    }
}

} // verus!
