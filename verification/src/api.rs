//! Methods of the editor's API, as calls through a [`Client`].

use crate::client::{called, Client, Rejected};
use crate::value::{lemma_dict_view, Value, ValueView};
use vstd::prelude::*;

verus! {

/// What the UI asks of the editor when it attaches. An option that is off is
/// not sent.
#[derive(Clone, Copy, Debug, PartialEq, Eq, Structural)]
pub struct UiOptions {
    pub rgb: bool,
    pub ext_linegrid: bool,
    pub ext_multigrid: bool,
    pub ext_popupmenu: bool,
    pub ext_tabline: bool,
    pub ext_cmdline: bool,
    pub ext_wildmenu: bool,
    pub ext_hlstate: bool,
    pub ext_termcolors: bool,
    pub ext_messages: bool,
}

/// The entry of an option in the map that is sent: one pair where the option
/// is on, none where it is off.
pub open spec fn option_entry(name: Seq<char>, on: bool) -> Seq<(ValueView, ValueView)> {
    if on {
        seq![(ValueView::Str(name), ValueView::Bool(true))]
    } else {
        Seq::empty()
    }
}

impl UiOptions {
    /// Every option off.
    pub open spec fn none() -> UiOptions {
        UiOptions {
            rgb: false,
            ext_linegrid: false,
            ext_multigrid: false,
            ext_popupmenu: false,
            ext_tabline: false,
            ext_cmdline: false,
            ext_wildmenu: false,
            ext_hlstate: false,
            ext_termcolors: false,
            ext_messages: false,
        }
    }

    /// The pairs of the map that is sent: the options that are on, in the
    /// order of the fields.
    pub open spec fn pairs(self) -> Seq<(ValueView, ValueView)> {
        option_entry("rgb"@, self.rgb) + option_entry("ext_linegrid"@, self.ext_linegrid)
            + option_entry("ext_multigrid"@, self.ext_multigrid) + option_entry(
            "ext_popupmenu"@,
            self.ext_popupmenu,
        ) + option_entry("ext_tabline"@, self.ext_tabline) + option_entry(
            "ext_cmdline"@,
            self.ext_cmdline,
        ) + option_entry("ext_wildmenu"@, self.ext_wildmenu) + option_entry(
            "ext_hlstate"@,
            self.ext_hlstate,
        ) + option_entry("ext_termcolors"@, self.ext_termcolors) + option_entry(
            "ext_messages"@,
            self.ext_messages,
        )
    }

    /// The options as the map that is sent.
    pub fn to_value(&self) -> (v: Value)
        ensures
            v@ == ValueView::Dict(self.pairs()),
    {
        let mut pairs: Vec<(Value, Value)> = Vec::new();
        assert(pairs.deep_view() =~= Seq::empty());
        put_option(&mut pairs, "rgb", self.rgb);
        put_option(&mut pairs, "ext_linegrid", self.ext_linegrid);
        put_option(&mut pairs, "ext_multigrid", self.ext_multigrid);
        put_option(&mut pairs, "ext_popupmenu", self.ext_popupmenu);
        put_option(&mut pairs, "ext_tabline", self.ext_tabline);
        put_option(&mut pairs, "ext_cmdline", self.ext_cmdline);
        put_option(&mut pairs, "ext_wildmenu", self.ext_wildmenu);
        put_option(&mut pairs, "ext_hlstate", self.ext_hlstate);
        put_option(&mut pairs, "ext_termcolors", self.ext_termcolors);
        put_option(&mut pairs, "ext_messages", self.ext_messages);
        proof {
            lemma_dict_view(pairs);
            assert(pairs.deep_view() =~= self.pairs());
        }
        Value::Dict(pairs)
    }
}

impl Default for UiOptions {
    fn default() -> (o: UiOptions)
        ensures
            o == UiOptions::none(),
    {
        UiOptions {
            rgb: false,
            ext_linegrid: false,
            ext_multigrid: false,
            ext_popupmenu: false,
            ext_tabline: false,
            ext_cmdline: false,
            ext_wildmenu: false,
            ext_hlstate: false,
            ext_termcolors: false,
            ext_messages: false,
        }
    }
}

/// Appends the entry of one option.
fn put_option(pairs: &mut Vec<(Value, Value)>, name: &str, on: bool)
    ensures
        final(pairs).deep_view() == old(pairs).deep_view() + option_entry(name@, on),
{
    let ghost before = pairs.deep_view();
    if on {
        pairs.push((Value::from_str(name), Value::Bool(true)));
    }
    assert(pairs.deep_view() =~= before + option_entry(name@, on));
}

/// The arguments of `nvim_ui_attach`.
pub open spec fn ui_attach_params(width: i64, height: i64, options: UiOptions) -> Seq<ValueView> {
    seq![
        ValueView::Int(width as int),
        ValueView::Int(height as int),
        ValueView::Dict(options.pairs()),
    ]
}

/// The arguments of `nvim_ui_pum_set_bounds`: four doubles, by their bits.
pub open spec fn pum_bounds_params(width: u64, height: u64, row: u64, col: u64) -> Seq<
    ValueView,
> {
    seq![ValueView::F64(width), ValueView::F64(height), ValueView::F64(row), ValueView::F64(col)]
}

/// The arguments of `nvim_input_mouse`.
pub open spec fn input_mouse_params(
    button: Seq<char>,
    action: Seq<char>,
    modifier: Seq<char>,
    grid: i64,
    row: i64,
    col: i64,
) -> Seq<ValueView> {
    seq![
        ValueView::Str(button),
        ValueView::Str(action),
        ValueView::Str(modifier),
        ValueView::Int(grid as int),
        ValueView::Int(row as int),
        ValueView::Int(col as int),
    ]
}

impl<S> Client<S> {
    /// Calls `nvim_ui_attach`: the editor is to draw for a UI of `width`
    /// columns and `height` rows, with these options.
    pub fn nvim_ui_attach(&mut self, width: i64, height: i64, options: UiOptions, slot: S) -> (r:
        Result<u32, Rejected<S>>)
        requires
            old(self).wf(),
        ensures
            final(self).wf(),
            called(
                old(self)@,
                final(self)@,
                r,
                "nvim_ui_attach"@,
                ui_attach_params(width, height, options),
                slot,
            ),
    {
        let mut params: Vec<Value> = Vec::new();
        params.push(Value::from_i64(width));
        params.push(Value::from_i64(height));
        params.push(options.to_value());
        assert(params.deep_view() =~= ui_attach_params(width, height, options));
        self.call("nvim_ui_attach", params, slot)
    }

    /// Calls `nvim_ui_pum_set_bounds`: tells the editor where the UI drew
    /// the popup menu, in cells. The four numbers are doubles, given by
    /// their bits.
    pub fn nvim_ui_pum_set_bounds(&mut self, width: u64, height: u64, row: u64, col: u64, slot: S)
        -> (r: Result<u32, Rejected<S>>)
        requires
            old(self).wf(),
        ensures
            final(self).wf(),
            called(
                old(self)@,
                final(self)@,
                r,
                "nvim_ui_pum_set_bounds"@,
                pum_bounds_params(width, height, row, col),
                slot,
            ),
    {
        let mut params: Vec<Value> = Vec::new();
        params.push(Value::F64(width));
        params.push(Value::F64(height));
        params.push(Value::F64(row));
        params.push(Value::F64(col));
        assert(params.deep_view() =~= pum_bounds_params(width, height, row, col));
        self.call("nvim_ui_pum_set_bounds", params, slot)
    }

    /// Calls `nvim_input_mouse`: a mouse event at a cell of a grid.
    pub fn nvim_input_mouse(
        &mut self,
        button: &str,
        action: &str,
        modifier: &str,
        grid: i64,
        row: i64,
        col: i64,
        slot: S,
    ) -> (r: Result<u32, Rejected<S>>)
        requires
            old(self).wf(),
        ensures
            final(self).wf(),
            called(
                old(self)@,
                final(self)@,
                r,
                "nvim_input_mouse"@,
                input_mouse_params(button@, action@, modifier@, grid, row, col),
                slot,
            ),
    {
        let mut params: Vec<Value> = Vec::new();
        params.push(Value::from_str(button));
        params.push(Value::from_str(action));
        params.push(Value::from_str(modifier));
        params.push(Value::from_i64(grid));
        params.push(Value::from_i64(row));
        params.push(Value::from_i64(col));
        assert(params.deep_view() =~= input_mouse_params(
            button@,
            action@,
            modifier@,
            grid,
            row,
            col,
        ));
        self.call("nvim_input_mouse", params, slot)
    }
}

} // verus!
