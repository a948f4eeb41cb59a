use nvim_rs::input::{modifier_to_nvim, Action, DragTracker, Mouse, Sign};
use nvim_rs::types::color::{Color, HlAttr};
use nvim_rs::types::redraw::EventKind;
use nvim_rs::types::uievents::{DefaultColorsSet, GridLine, GridResize, HlAttrDefine};
use nvim_rs::ui::{handle_ui_event, is_handled, Colors, Selection, ShellAction};
use nvim_rs::{IntoValue, UiEvent, Value};

fn defaults(fg: i64, bg: i64) -> DefaultColorsSet {
    DefaultColorsSet {
        rgb_fg: Color::from_i64(fg).unwrap(),
        rgb_bg: Color::from_i64(bg).unwrap(),
        rgb_sp: Color::Unset,
        cterm_fg: 0,
        cterm_bg: 0,
    }
}

#[test]
fn default_colors_the_last_record_stands() {
    let mut colors = Colors::new();
    assert_eq!((colors.fg, colors.bg, colors.sp), (Color::Unset, Color::Unset, Color::Unset));
    let event = UiEvent::DefaultColorsSet(vec![defaults(1, 2), defaults(-1, 0xff)]);
    assert_eq!(handle_ui_event(&mut colors, event), ShellAction::Nothing);
    assert_eq!((colors.fg, colors.bg, colors.sp), (Color::Unset, Color::Rgb(0xff), Color::Unset));
    assert_eq!(handle_ui_event(&mut colors, UiEvent::DefaultColorsSet(vec![])), ShellAction::Nothing);
    assert_eq!(colors.bg, Color::Rgb(0xff));
}

#[test]
fn highlights_are_kept_by_id() {
    let mut colors = Colors::new();
    let bold = HlAttr { bold: true, ..HlAttr::new() };
    let italic = HlAttr { italic: true, ..HlAttr::new() };
    let red = HlAttr { foreground: Color::Rgb(0xff_00_00), ..HlAttr::new() };
    let define = |id: i64, rgb_attrs: HlAttr| HlAttrDefine { id, rgb_attrs, cterm_attrs: HlAttr::new(), info: vec![] };
    let event = UiEvent::HlAttrDefine(vec![define(1, bold), define(2, italic), define(1, red)]);
    assert_eq!(handle_ui_event(&mut colors, event), ShellAction::Nothing);
    assert_eq!(colors.highlight(1), Some(red));
    assert_eq!(colors.highlight(2), Some(italic));
    assert_eq!(colors.highlight(3), None);
    assert_eq!(colors.fg, Color::Unset);
}

#[test]
fn shell_actions() {
    let mut colors = Colors::new();
    let resize = vec![GridResize { grid: 1, width: 80, height: 30 }, GridResize { grid: 2, width: 10, height: 5 }];
    assert_eq!(
        handle_ui_event(&mut colors, UiEvent::GridResize(resize.clone())),
        ShellAction::Resize(resize)
    );
    let lines = vec![GridLine { grid: 1, row: 0, col_start: 0, cells: vec![] }];
    assert_eq!(handle_ui_event(&mut colors, UiEvent::GridLine(lines.clone())), ShellAction::Lines(lines));
    assert_eq!(handle_ui_event(&mut colors, UiEvent::Flush), ShellAction::Flush);
    assert_eq!(handle_ui_event(&mut colors, UiEvent::MouseOn), ShellAction::Nothing);
    assert_eq!(handle_ui_event(&mut colors, UiEvent::SetTitle(vec![])), ShellAction::Nothing);
}

#[test]
fn kinds_with_and_without_a_rule() {
    let with = [
        EventKind::OptionSet,
        EventKind::DefaultColorsSet,
        EventKind::HlAttrDefine,
        EventKind::HlGroupSet,
        EventKind::GridResize,
        EventKind::GridClear,
        EventKind::GridLine,
        EventKind::UpdateMenu,
        EventKind::WinViewport,
        EventKind::GridCursorGoto,
        EventKind::ModeInfoSet,
        EventKind::ModeChange,
        EventKind::Flush,
        EventKind::SetIcon,
        EventKind::SetTitle,
        EventKind::MouseOn,
        EventKind::MouseOff,
    ];
    let without = [
        EventKind::GridDestroy,
        EventKind::GridScroll,
        EventKind::PopupmenuShow,
        EventKind::PopupmenuSelect,
        EventKind::PopupmenuHide,
        EventKind::BusyStart,
        EventKind::BusyStop,
        EventKind::Bell,
        EventKind::VisualBell,
        EventKind::Suspend,
    ];
    for kind in with {
        assert!(is_handled(kind));
    }
    for kind in without {
        assert!(!is_handled(kind));
    }
}

#[test]
fn popup_selection() {
    assert_eq!(Selection::of(-1), Selection::Nothing);
    assert_eq!(Selection::of(i64::MIN), Selection::Nothing);
    assert_eq!(Selection::of(0), Selection::Item(0));
    assert_eq!(Selection::of(41), Selection::Item(41));
    assert_eq!(Selection::of(0x1_0000_0005), Selection::Item(5));
}

#[test]
fn grid_size() {
    assert_eq!(GridResize { grid: 1, width: 80, height: 30 }.size(), Some((80, 30)));
    assert_eq!(GridResize { grid: 1, width: 0, height: 0 }.size(), Some((0, 0)));
    assert_eq!(GridResize { grid: 1, width: -1, height: 30 }.size(), None);
    assert_eq!(GridResize { grid: 1, width: 80, height: -30 }.size(), None);
}

#[test]
fn wheel_turns() {
    assert_eq!(Action::scroll(Sign::Positive, Sign::Negative), Some(Action::ScrollRight));
    assert_eq!(Action::scroll(Sign::Negative, Sign::Positive), Some(Action::ScrollLeft));
    assert_eq!(Action::scroll(Sign::Zero, Sign::Positive), Some(Action::ScrollDown));
    assert_eq!(Action::scroll(Sign::Zero, Sign::Negative), Some(Action::ScrollUp));
    assert_eq!(Action::scroll(Sign::Zero, Sign::Zero), None);
}

#[test]
fn names_for_the_editor() {
    assert_eq!(Mouse::Left.as_nvim_str(), "left");
    assert_eq!(Mouse::Middle.as_nvim_str(), "middle");
    assert_eq!(Mouse::Right.as_nvim_str(), "right");
    assert_eq!(Mouse::Wheel.as_nvim_str(), "wheel");
    assert_eq!(Action::Pressed.as_nvim_str(), "press");
    assert_eq!(Action::Released.as_nvim_str(), "release");
    assert_eq!(Action::Drag.as_nvim_str(), "drag");
    assert_eq!(Action::ScrollUp.as_nvim_str(), "up");
    assert_eq!(Action::ScrollDown.as_nvim_str(), "down");
    assert_eq!(Action::ScrollLeft.as_nvim_str(), "left");
    assert_eq!(Action::ScrollRight.as_nvim_str(), "right");
}

#[test]
fn drag_is_told_once_per_cell() {
    let mut tracker = DragTracker::new();
    assert!(!tracker.moved(0, 0));
    assert!(tracker.moved(0, 1));
    assert!(!tracker.moved(0, 1));
    assert!(tracker.moved(2, 1));
    assert!(tracker.moved(0, 0));
}

#[test]
fn plain_values_as_arguments() {
    assert_eq!(true.into_value(), Value::Bool(true));
    assert_eq!(5i64.into_value(), Value::UInt(5));
    assert_eq!((-5i64).into_value(), Value::Int(-5));
    assert_eq!(5u64.into_value(), Value::UInt(5));
    assert_eq!("x".into_value(), Value::from_str("x"));
    assert_eq!(String::from("y").into_value(), Value::from_str("y"));
    assert_eq!(vec![Value::Nil].into_value(), Value::Array(vec![Value::Nil]));
    assert_eq!(Some(1u64).into_value(), Value::UInt(1));
    assert_eq!(None::<u64>.into_value(), Value::Nil);
    assert_eq!(Value::Nil.into_value(), Value::Nil);
}

#[test]
fn modifier_prefixes() {
    assert_eq!(modifier_to_nvim(false, false, false), "");
    assert_eq!(modifier_to_nvim(true, false, false), "S-");
    assert_eq!(modifier_to_nvim(false, true, false), "C-");
    assert_eq!(modifier_to_nvim(false, false, true), "A-");
    assert_eq!(modifier_to_nvim(true, true, true), "S-C-A-");
    assert_eq!(modifier_to_nvim(true, false, true), "S-A-");
}

#[test]
fn buttons_by_number() {
    assert_eq!(Mouse::from_button(1), Mouse::Left);
    assert_eq!(Mouse::from_button(2), Mouse::Middle);
    assert_eq!(Mouse::from_button(3), Mouse::Right);
    assert_eq!(Mouse::from_button(0), Mouse::Left);
    assert_eq!(Mouse::from_button(9), Mouse::Left);
}
