use nvim_rs::types::color::{Color, HlAttr};
use nvim_rs::types::redraw::EventKind;
use nvim_rs::types::uievents::{
    CursorShape, DefaultColorsSet, GridClear, GridCursorGoto, GridDestroy, GridLine, GridLineCell,
    GridResize, GridScroll, HlAttrDefine, HlGroupSet, ModeChange, ModeInfo, ModeInfoSet, OptionSet,
    PopupmenuItem, PopupmenuSelect, PopupmenuShow, SetIcon, SetTitle, WinViewport,
};
use nvim_rs::types::Window;
use nvim_rs::{decode_redraw_params, DecodeError, UiEvent, Value};

fn s(text: &str) -> Value {
    Value::from_str(text)
}

fn i(n: i64) -> Value {
    Value::from_i64(n)
}

fn arr(items: Vec<Value>) -> Value {
    Value::Array(items)
}

fn batch(name: &str, occurrences: Vec<Value>) -> Value {
    let mut items = vec![s(name)];
    items.extend(occurrences);
    Value::Array(items)
}

fn cell(text: &str, hl_id: Option<i64>, repeat: Option<i64>) -> GridLineCell {
    GridLineCell { text: String::from(text), hl_id, repeat }
}

fn line(row: i64) -> Value {
    arr(vec![i(1), i(row), i(0), arr(vec![arr(vec![s("a"), i(7)]), arr(vec![s(" "), i(0), i(3)]), arr(vec![s("b")])])])
}

fn decoded_line(row: i64) -> GridLine {
    GridLine {
        grid: 1,
        row,
        col_start: 0,
        cells: vec![cell("a", Some(7), None), cell(" ", Some(0), Some(3)), cell("b", None, None)],
    }
}

#[test]
fn two_grid_line_batches_stay_two_events() {
    let params = vec![
        batch("grid_line", vec![line(0), line(1), line(2)]),
        batch("grid_line", vec![line(3), line(4)]),
    ];
    assert_eq!(
        decode_redraw_params(params),
        Ok(vec![
            UiEvent::GridLine(vec![decoded_line(0), decoded_line(1), decoded_line(2)]),
            UiEvent::GridLine(vec![decoded_line(3), decoded_line(4)]),
        ])
    );
}

#[test]
fn unknown_event_name() {
    let params = vec![
        batch("flush", vec![arr(vec![])]),
        batch("totally_unknown_event", vec![arr(vec![i(1)])]),
        batch("flush", vec![arr(vec![])]),
    ];
    assert_eq!(
        decode_redraw_params(params),
        Err(DecodeError::UnknownEvent(String::from("totally_unknown_event")))
    );
}

#[test]
fn event_names_are_case_sensitive() {
    assert_eq!(
        decode_redraw_params(vec![batch("Flush", vec![arr(vec![])])]),
        Err(DecodeError::UnknownEvent(String::from("Flush")))
    );
    assert_eq!(EventKind::from_name("grid_line"), Some(EventKind::GridLine));
    assert_eq!(EventKind::from_name("grid_line "), None);
    assert_eq!(EventKind::from_name(""), None);
}

#[test]
fn unset_color_is_not_black() {
    let params = vec![batch(
        "default_colors_set",
        vec![arr(vec![i(-1), i(0), i(0xff_ffff), i(0), i(0)])],
    )];
    let events = decode_redraw_params(params).unwrap();
    assert_eq!(
        events,
        vec![UiEvent::DefaultColorsSet(vec![DefaultColorsSet {
            rgb_fg: Color::Unset,
            rgb_bg: Color::Rgb(0),
            rgb_sp: Color::Rgb(0xff_ffff),
            cterm_fg: 0,
            cterm_bg: 0,
        }])]
    );
    assert_ne!(Color::from_i64(-1), Color::from_i64(0));
    assert_eq!(Color::from_i64(-1), Some(Color::Unset));
    assert_eq!(Color::from_i64(-2), None);
    assert_eq!(Color::from_i64(0x100_0000), None);
    assert_eq!(Color::Unset.channels(), None);
    assert_eq!(Color::Rgb(0x12_34_56).channels(), Some((0x12, 0x34, 0x56)));
    assert_eq!(Color::Rgb(0x12_34_56).to_i64(), 0x12_34_56);
    assert_eq!(Color::Unset.to_i64(), -1);
}

#[test]
fn color_out_of_range_is_a_malformed_field() {
    let params = vec![batch(
        "default_colors_set",
        vec![arr(vec![i(1), i(2), i(3), i(4), i(5)]), arr(vec![i(1), i(-2), i(3), i(4), i(5)])],
    )];
    assert_eq!(
        decode_redraw_params(params),
        Err(DecodeError::MalformedOccurrence {
            event: String::from("default_colors_set"),
            batch: 0,
            occurrence: 1,
            field: 1,
        })
    );
}

#[test]
fn too_few_fields_is_an_error_and_extra_fields_are_ignored() {
    let short = vec![batch("flush", vec![]), batch("grid_resize", vec![arr(vec![i(1), i(80)])])];
    assert_eq!(
        decode_redraw_params(short),
        Err(DecodeError::MalformedOccurrence {
            event: String::from("grid_resize"),
            batch: 1,
            occurrence: 0,
            field: 2,
        })
    );
    let long = vec![batch("grid_resize", vec![arr(vec![i(1), i(80), i(30), s("later"), Value::Nil])])];
    assert_eq!(
        decode_redraw_params(long),
        Ok(vec![UiEvent::GridResize(vec![GridResize { grid: 1, width: 80, height: 30 }])])
    );
}

#[test]
fn occurrence_that_is_no_array() {
    assert_eq!(
        decode_redraw_params(vec![batch("grid_clear", vec![i(1)])]),
        Err(DecodeError::MalformedOccurrence {
            event: String::from("grid_clear"),
            batch: 0,
            occurrence: 0,
            field: 0,
        })
    );
}

#[test]
fn malformed_batches() {
    assert_eq!(decode_redraw_params(vec![i(1)]), Err(DecodeError::MalformedBatch { batch: 0 }));
    assert_eq!(
        decode_redraw_params(vec![batch("flush", vec![]), arr(vec![])]),
        Err(DecodeError::MalformedBatch { batch: 1 })
    );
    assert_eq!(
        decode_redraw_params(vec![arr(vec![i(3), arr(vec![])])]),
        Err(DecodeError::MalformedBatch { batch: 0 })
    );
}

#[test]
fn empty_notification_and_empty_batch() {
    assert_eq!(decode_redraw_params(vec![]), Ok(vec![]));
    assert_eq!(
        decode_redraw_params(vec![batch("grid_line", vec![])]),
        Ok(vec![UiEvent::GridLine(vec![])])
    );
}

#[test]
fn events_without_fields() {
    let names = [
        ("popupmenu_hide", UiEvent::PopupmenuHide),
        ("flush", UiEvent::Flush),
        ("update_menu", UiEvent::UpdateMenu),
        ("mouse_on", UiEvent::MouseOn),
        ("mouse_off", UiEvent::MouseOff),
        ("busy_start", UiEvent::BusyStart),
        ("busy_stop", UiEvent::BusyStop),
        ("bell", UiEvent::Bell),
        ("visual_bell", UiEvent::VisualBell),
        ("suspend", UiEvent::Suspend),
    ];
    let params = names.iter().map(|(name, _)| batch(name, vec![arr(vec![])])).collect();
    let expected: Vec<UiEvent> = names.iter().map(|(_, event)| event.clone()).collect();
    assert_eq!(decode_redraw_params(params), Ok(expected));
}

#[test]
fn grid_events() {
    let params = vec![
        batch("grid_resize", vec![arr(vec![i(2), i(100), i(40)])]),
        batch("grid_clear", vec![arr(vec![i(2)])]),
        batch("grid_destroy", vec![arr(vec![i(3)])]),
        batch("grid_cursor_goto", vec![arr(vec![i(2), i(5), i(6)])]),
        batch("grid_scroll", vec![arr(vec![i(2), i(0), i(40), i(0), i(100), i(-3), i(0)])]),
    ];
    assert_eq!(
        decode_redraw_params(params),
        Ok(vec![
            UiEvent::GridResize(vec![GridResize { grid: 2, width: 100, height: 40 }]),
            UiEvent::GridClear(vec![GridClear { grid: 2 }]),
            UiEvent::GridDestroy(vec![GridDestroy { grid: 3 }]),
            UiEvent::GridCursorGoto(vec![GridCursorGoto { grid: 2, row: 5, col: 6 }]),
            UiEvent::GridScroll(vec![GridScroll {
                grid: 2,
                top: 0,
                bot: 40,
                left: 0,
                right: 100,
                rows: -3,
                cols: 0,
            }]),
        ])
    );
}

#[test]
fn grid_line_with_a_malformed_cell() {
    let bad = arr(vec![i(1), i(0), i(0), arr(vec![arr(vec![s("a")]), arr(vec![i(5)])])]);
    assert_eq!(
        decode_redraw_params(vec![batch("grid_line", vec![line(0), bad])]),
        Err(DecodeError::MalformedOccurrence {
            event: String::from("grid_line"),
            batch: 0,
            occurrence: 1,
            field: 3,
        })
    );
    let bad_hl = arr(vec![i(1), i(0), i(0), arr(vec![arr(vec![s("a"), s("x")])])]);
    assert!(decode_redraw_params(vec![batch("grid_line", vec![bad_hl])]).is_err());
}

#[test]
fn text_events() {
    let params = vec![
        batch("option_set", vec![arr(vec![s("guifont"), s("Mono 12")]), arr(vec![s("linespace"), i(0)])]),
        batch("hl_group_set", vec![arr(vec![s("Normal"), i(4)])]),
        batch("mode_change", vec![arr(vec![s("insert"), i(1)])]),
        batch("set_title", vec![arr(vec![s("file.txt")])]),
        batch("set_icon", vec![arr(vec![s("file")])]),
    ];
    assert_eq!(
        decode_redraw_params(params),
        Ok(vec![
            UiEvent::OptionSet(vec![
                OptionSet { name: String::from("guifont"), value: s("Mono 12") },
                OptionSet { name: String::from("linespace"), value: Value::UInt(0) },
            ]),
            UiEvent::HlGroupSet(vec![HlGroupSet { name: String::from("Normal"), id: 4 }]),
            UiEvent::ModeChange(vec![ModeChange { mode: String::from("insert"), mode_idx: 1 }]),
            UiEvent::SetTitle(vec![SetTitle { title: String::from("file.txt") }]),
            UiEvent::SetIcon(vec![SetIcon { icon: String::from("file") }]),
        ])
    );
}

#[test]
fn hl_attr_define() {
    let rgb = Value::Dict(vec![
        (s("foreground"), i(0xff_00_00)),
        (s("bold"), Value::Bool(true)),
        (s("some_later_attribute"), s("passed over")),
        (s("blend"), i(30)),
        (s("foreground"), i(0x00_ff_00)),
        (s("special"), i(-1)),
        (s("undercurl"), Value::Bool(true)),
    ]);
    let cterm = Value::Dict(vec![(s("background"), i(12)), (s("reverse"), Value::Bool(true))]);
    let info = vec![Value::Dict(vec![(s("kind"), s("ui"))])];
    let params = vec![batch("hl_attr_define", vec![arr(vec![i(9), rgb, cterm, arr(info.clone())])])];
    let plain = HlAttr::new();
    assert_eq!(
        decode_redraw_params(params),
        Ok(vec![UiEvent::HlAttrDefine(vec![HlAttrDefine {
            id: 9,
            rgb_attrs: HlAttr {
                foreground: Color::Rgb(0x00_ff_00),
                bold: true,
                blend: 30,
                undercurl: true,
                ..plain
            },
            cterm_attrs: HlAttr { background: Color::Rgb(12), reverse: true, ..plain },
            info,
        }])])
    );
    assert_eq!(plain.foreground, Color::Unset);
    assert_eq!(plain.background, Color::Unset);
    assert_eq!(plain.special, Color::Unset);
    assert!(!plain.bold && !plain.italic && !plain.reverse && plain.blend == 0);
}

#[test]
fn hl_attr_of_the_wrong_type() {
    let rgb = Value::Dict(vec![(s("bold"), i(1))]);
    let params = vec![batch("hl_attr_define", vec![arr(vec![i(9), rgb, Value::Dict(vec![]), arr(vec![])])])];
    assert_eq!(
        decode_redraw_params(params),
        Err(DecodeError::MalformedOccurrence {
            event: String::from("hl_attr_define"),
            batch: 0,
            occurrence: 0,
            field: 1,
        })
    );
    let key = Value::Dict(vec![(i(1), Value::Bool(true))]);
    let params = vec![batch("hl_attr_define", vec![arr(vec![i(9), Value::Dict(vec![]), key, arr(vec![])])])];
    assert_eq!(
        decode_redraw_params(params),
        Err(DecodeError::MalformedOccurrence {
            event: String::from("hl_attr_define"),
            batch: 0,
            occurrence: 0,
            field: 2,
        })
    );
}

#[test]
fn mode_info_set() {
    let normal = Value::Dict(vec![
        (s("cursor_shape"), s("block")),
        (s("cell_percentage"), i(0)),
        (s("blinkwait"), i(700)),
        (s("blinkon"), i(400)),
        (s("blinkoff"), i(250)),
        (s("attr_id"), i(3)),
        (s("attr_id_lm"), i(4)),
        (s("short_name"), s("n")),
        (s("name"), s("normal")),
        (s("mouse_shape"), i(0)),
    ]);
    let insert = Value::Dict(vec![(s("cursor_shape"), s("vertical")), (s("cell_percentage"), i(25))]);
    let params = vec![batch("mode_info_set", vec![arr(vec![Value::Bool(true), arr(vec![normal, insert])])])];
    let blank = ModeInfo::new();
    assert_eq!(
        decode_redraw_params(params),
        Ok(vec![UiEvent::ModeInfoSet(vec![ModeInfoSet {
            cursor_style_enabled: true,
            mode_info: vec![
                ModeInfo {
                    cursor_shape: Some(CursorShape::Block),
                    cell_percentage: Some(0),
                    blinkwait: Some(700),
                    blinkon: Some(400),
                    blinkoff: Some(250),
                    attr_id: Some(3),
                    attr_id_lm: Some(4),
                    short_name: Some(String::from("n")),
                    name: Some(String::from("normal")),
                },
                ModeInfo {
                    cursor_shape: Some(CursorShape::Vertical),
                    cell_percentage: Some(25),
                    ..blank
                },
            ],
        }])])
    );
    assert_eq!(CursorShape::from_name("horizontal"), Some(CursorShape::Horizontal));
    assert_eq!(CursorShape::from_name("round"), None);
    let bad = Value::Dict(vec![(s("cursor_shape"), s("round"))]);
    let params = vec![batch("mode_info_set", vec![arr(vec![Value::Bool(true), arr(vec![bad])])])];
    assert_eq!(
        decode_redraw_params(params),
        Err(DecodeError::MalformedOccurrence {
            event: String::from("mode_info_set"),
            batch: 0,
            occurrence: 0,
            field: 1,
        })
    );
}

#[test]
fn win_viewport_reads_the_window_handle() {
    let win = Value::Ext(1, vec![0xcd, 0x03, 0xe8]);
    let params = vec![batch("win_viewport", vec![arr(vec![i(2), win, i(0), i(30), i(4), i(1), i(99)])])];
    assert_eq!(
        decode_redraw_params(params),
        Ok(vec![UiEvent::WinViewport(vec![WinViewport {
            grid: 2,
            win: Window { handle: 1000 },
            topline: 0,
            botline: 30,
            curline: 4,
            curcol: 1,
        }])])
    );
    assert_eq!(Window::decode(&Value::Ext(1, vec![0x05])), Some(Window { handle: 5 }));
    assert_eq!(Window::decode(&Value::Ext(1, vec![0xff])), Some(Window { handle: -1 }));
    // another extension type, trailing bytes, no integer, no bytes, no extension
    assert_eq!(Window::decode(&Value::Ext(0, vec![0x05])), None);
    assert_eq!(Window::decode(&Value::Ext(1, vec![0x05, 0x06])), None);
    assert_eq!(Window::decode(&Value::Ext(1, vec![0xc0])), None);
    assert_eq!(Window::decode(&Value::Ext(1, vec![])), None);
    assert_eq!(Window::decode(&Value::Ext(1, vec![0xcd, 0x03])), None);
    assert_eq!(Window::decode(&Value::UInt(5)), None);
}

#[test]
fn popupmenu_events() {
    let items = arr(vec![
        arr(vec![s("word"), s("f"), s("menu"), s("info")]),
        arr(vec![s("other"), s(""), s(""), s("")]),
    ]);
    let params = vec![
        batch("popupmenu_show", vec![arr(vec![items, i(-1), i(3), i(4), i(1)])]),
        batch("popupmenu_select", vec![arr(vec![i(1)]), arr(vec![i(-1)])]),
    ];
    assert_eq!(
        decode_redraw_params(params),
        Ok(vec![
            UiEvent::PopupmenuShow(vec![PopupmenuShow {
                items: vec![
                    PopupmenuItem {
                        word: String::from("word"),
                        kind: String::from("f"),
                        menu: String::from("menu"),
                        info: String::from("info"),
                    },
                    PopupmenuItem {
                        word: String::from("other"),
                        kind: String::new(),
                        menu: String::new(),
                        info: String::new(),
                    },
                ],
                selected: -1,
                row: 3,
                col: 4,
                grid: 1,
            }]),
            UiEvent::PopupmenuSelect(vec![PopupmenuSelect { selected: 1 }, PopupmenuSelect { selected: -1 }]),
        ])
    );
}

#[test]
fn integers_that_do_not_fit_are_malformed() {
    let params = vec![batch("grid_clear", vec![arr(vec![Value::UInt(u64::MAX)])])];
    assert_eq!(
        decode_redraw_params(params),
        Err(DecodeError::MalformedOccurrence {
            event: String::from("grid_clear"),
            batch: 0,
            occurrence: 0,
            field: 0,
        })
    );
}

#[test]
fn event_kind_of_an_event() {
    assert_eq!(UiEvent::Flush.kind(), EventKind::Flush);
    assert_eq!(UiEvent::GridLine(vec![]).kind(), EventKind::GridLine);
    assert_eq!(UiEvent::SetTitle(vec![]).kind(), EventKind::SetTitle);
}
