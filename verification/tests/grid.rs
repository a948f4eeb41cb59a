use nvim_rs::types::uievents::{GridLine, GridLineCell, GridResize, GridScroll, ModeInfo, PopupmenuItem};
use nvim_rs::types::Window;
use nvim_rs::ui::{Grid, Popupmenu, Selection};

fn filled() -> Grid {
    let mut g = Grid::new(3);
    g.resize(GridResize { grid: 3, width: 4, height: 2 });
    let run = |text: &str| GridLineCell { text: String::from(text), hl_id: Some(1), repeat: None };
    g.put(GridLine { grid: 3, row: 0, col_start: 0, cells: vec![run("a"), run("b"), run("c"), run("d")] });
    g.put(GridLine { grid: 3, row: 1, col_start: 0, cells: vec![run("e"), run("f"), run("g"), run("h")] });
    g
}

#[test]
fn new_grid() {
    let g = Grid::new(7);
    assert_eq!(g.id(), 7);
    assert_eq!(g.grid_size(), (0, 0));
    assert!(!g.is_active());
    assert_eq!(g.nvim_window(), None);
    assert_eq!(g.mode_info(), &None);
    assert_eq!((g.cursor().row, g.cursor().col, g.cursor().text.as_str()), (0, 0, ""));
    assert_eq!(Grid::default().id(), 0);
}

#[test]
fn resize_with_a_negative_size_changes_nothing() {
    let mut g = filled();
    g.resize(GridResize { grid: 3, width: -1, height: 5 });
    assert_eq!(g.grid_size(), (4, 2));
    g.resize(GridResize { grid: 3, width: 5, height: -1 });
    assert_eq!(g.grid_size(), (4, 2));
    g.resize(GridResize { grid: 3, width: 2, height: 1 });
    assert_eq!(g.grid_size(), (2, 1));
    assert_eq!(g.buffer().text_at(0, 1), "b");
}

#[test]
fn cursor_goes_to_a_cell() {
    let mut g = filled();
    assert!(g.can_goto(2, 1));
    g.cursor_goto(2, 1);
    assert_eq!((g.cursor().row, g.cursor().col, g.cursor().text.as_str()), (1, 2, "g"));
    // a row that the grid has not leaves the cursor where it is
    assert!(g.can_goto(0, 2));
    g.cursor_goto(0, 2);
    assert!(g.can_goto(9, -1));
    g.cursor_goto(9, -1);
    assert_eq!((g.cursor().row, g.cursor().col, g.cursor().text.as_str()), (1, 2, "g"));
    // a column that the grid has not, in a row that it has, is no place to go
    assert!(!g.can_goto(4, 1));
    assert!(!g.can_goto(-1, 0));
}

#[test]
fn flush_brings_the_cursor_text_up_to_date() {
    let mut g = filled();
    g.cursor_goto(0, 0);
    assert_eq!(g.cursor().text, "a");
    g.scroll(GridScroll { grid: 3, top: 0, bot: 2, left: 0, right: 4, rows: 1, cols: 0 });
    g.flush();
    // only the grid that has the cursor follows
    assert_eq!(g.cursor().text, "a");
    g.set_active(true);
    g.flush();
    assert_eq!(g.cursor().text, "e");
    g.resize(GridResize { grid: 3, width: 0, height: 0 });
    g.flush();
    assert_eq!(g.cursor().text, "");
    assert_eq!((g.cursor().row, g.cursor().col), (0, 0));
}

#[test]
fn clear_keeps_the_size() {
    let mut g = filled();
    g.clear();
    assert_eq!(g.grid_size(), (4, 2));
    assert_eq!(g.buffer().text_at(1, 3), "");
}

#[test]
fn external_window() {
    let mut g = filled();
    assert!(!g.unparent());
    assert!(g.make_external());
    assert!(!g.make_external());
    assert!(g.unparent());
    assert!(!g.unparent());
    assert!(g.make_external());
}

#[test]
fn window_and_mode() {
    let mut g = filled();
    g.set_nvim_window(Some(Window { handle: 1000 }));
    assert_eq!(g.nvim_window(), Some(Window { handle: 1000 }));
    g.set_nvim_window(None);
    assert_eq!(g.nvim_window(), None);
    let mode = ModeInfo { name: Some(String::from("insert")), blinkon: Some(400), ..ModeInfo::new() };
    g.mode_change(&mode);
    assert_eq!(g.mode_info(), &Some(mode.clone()));
    assert_eq!(mode.clone(), mode);
    assert_eq!(g.grid_size(), (4, 2));
}

#[test]
fn popup_menu() {
    let item = |word: &str| PopupmenuItem {
        word: String::from(word),
        kind: String::new(),
        menu: String::new(),
        info: String::new(),
    };
    let mut menu = Popupmenu::new();
    assert_eq!(menu.store(), &vec![]);
    assert_eq!(menu.selected(), Selection::Nothing);
    menu.set_items(vec![item("a"), item("b")]);
    assert_eq!(menu.store(), &vec![item("a"), item("b")]);
    assert_eq!(menu.select(1), Selection::Item(1));
    assert_eq!(menu.selected(), Selection::Item(1));
    assert_eq!(menu.select(-1), Selection::Nothing);
    assert_eq!(menu.selected(), Selection::Nothing);
    menu.select(0);
    menu.set_items(vec![item("c")]);
    assert_eq!(menu.selected(), Selection::Nothing);
    assert_eq!(menu.store(), &vec![item("c")]);
}
