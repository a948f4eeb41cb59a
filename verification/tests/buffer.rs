use nvim_rs::types::uievents::{GridLine, GridLineCell, GridScroll};
use nvim_rs::ui::{Cell, GridBuffer};

fn run(text: &str, hl_id: Option<i64>, repeat: Option<i64>) -> GridLineCell {
    GridLineCell { text: String::from(text), hl_id, repeat }
}

fn line(row: i64, col_start: i64, cells: Vec<GridLineCell>) -> GridLine {
    GridLine { grid: 1, row, col_start, cells }
}

fn texts(g: &GridBuffer) -> Vec<String> {
    let (width, height) = g.grid_size();
    (0..height)
        .map(|r| {
            (0..width)
                .map(|c| {
                    let t = g.text_at(r as i64, c as i64);
                    if t.is_empty() { String::from(".") } else { t }
                })
                .collect::<String>()
        })
        .collect()
}

fn hls(g: &GridBuffer, row: i64) -> Vec<i64> {
    let (width, _) = g.grid_size();
    (0..width).map(|c| g.cell_at(row, c as i64).unwrap().hl_id).collect()
}

fn lettered() -> GridBuffer {
    let mut g = GridBuffer::new();
    g.resize(4, 5);
    for (r, text) in ["a", "b", "c", "d", "e"].iter().enumerate() {
        g.put(&line(r as i64, 0, vec![run(text, Some(r as i64), Some(4))]));
    }
    g
}

#[test]
fn new_grid_has_no_cells() {
    let g = GridBuffer::new();
    assert_eq!(g.grid_size(), (0, 0));
    assert_eq!(g.cell_at(0, 0), None);
    assert_eq!(g.text_at(0, 0), "");
}

#[test]
fn resize_keeps_what_both_sizes_have() {
    let mut g = lettered();
    g.resize(6, 2);
    assert_eq!(g.grid_size(), (6, 2));
    assert_eq!(texts(&g), vec!["aaaa..", "bbbb.."]);
    g.resize(2, 3);
    assert_eq!(texts(&g), vec!["aa", "bb", ".."]);
    assert_eq!(g.cell_at(2, 1), Some(&Cell { text: String::new(), hl_id: 0 }));
    assert_eq!(g.cell_at(3, 0), None);
    assert_eq!(g.cell_at(0, 2), None);
    assert_eq!(g.cell_at(-1, 0), None);
    assert_eq!(g.cell_at(0, -1), None);
    assert_eq!(g.cell_at(i64::MAX, i64::MAX), None);
}

#[test]
fn clear_blanks_every_cell() {
    let mut g = lettered();
    g.clear();
    assert_eq!(g.grid_size(), (4, 5));
    assert_eq!(texts(&g), vec!["....", "....", "....", "....", "...."]);
    assert_eq!(hls(&g, 0), vec![0, 0, 0, 0]);
}

#[test]
fn put_lays_runs_over_the_row() {
    let mut g = GridBuffer::new();
    g.resize(8, 2);
    g.put(&line(1, 2, vec![run("x", Some(7), None), run("y", None, Some(3)), run("z", Some(9), Some(0)), run("w", None, None)]));
    assert_eq!(texts(&g), vec!["........", "..xyyyw."]);
    assert_eq!(hls(&g, 1), vec![0, 0, 7, 7, 7, 7, 9, 0]);
    // the first run without a highlight takes highlight 0
    g.put(&line(0, 0, vec![run("q", None, Some(2))]));
    assert_eq!(hls(&g, 0), vec![0; 8]);
    assert_eq!(texts(&g)[0], "qq......");
}

#[test]
fn put_drops_what_lies_beyond_the_row() {
    let mut g = GridBuffer::new();
    g.resize(4, 1);
    g.put(&line(0, 2, vec![run("a", Some(1), Some(i64::MAX)), run("b", Some(2), None)]));
    assert_eq!(texts(&g), vec!["..aa"]);
    g.put(&line(0, 4, vec![run("c", Some(1), None)]));
    assert_eq!(texts(&g), vec!["..aa"]);
    g.put(&line(0, 0, vec![run("d", Some(1), Some(-5)), run("e", None, None)]));
    assert_eq!(texts(&g), vec!["e.aa"]);
}

#[test]
fn put_outside_the_grid_changes_nothing() {
    let mut g = lettered();
    let before = texts(&g);
    g.put(&line(5, 0, vec![run("x", Some(1), None)]));
    g.put(&line(-1, 0, vec![run("x", Some(1), None)]));
    g.put(&line(0, 5, vec![run("x", Some(1), None)]));
    g.put(&line(0, -1, vec![run("x", Some(1), None)]));
    assert_eq!(texts(&g), before);
}

fn scroll(top: i64, bot: i64, left: i64, right: i64, rows: i64) -> GridScroll {
    GridScroll { grid: 1, top, bot, left, right, rows, cols: 0 }
}

#[test]
fn scroll_up_moves_rows_towards_the_top() {
    let mut g = lettered();
    g.scroll(&scroll(0, 5, 0, 4, 2));
    assert_eq!(texts(&g), vec!["cccc", "dddd", "eeee", "dddd", "eeee"]);
    assert_eq!(hls(&g, 0), vec![2; 4]);
}

#[test]
fn scroll_down_moves_rows_towards_the_bottom() {
    let mut g = lettered();
    g.scroll(&scroll(0, 5, 0, 4, -1));
    assert_eq!(texts(&g), vec!["aaaa", "aaaa", "bbbb", "cccc", "dddd"]);
}

#[test]
fn scroll_of_a_region() {
    let mut g = lettered();
    g.scroll(&scroll(1, 4, 1, 3, 1));
    assert_eq!(texts(&g), vec!["aaaa", "bccb", "cddc", "dddd", "eeee"]);
    let mut g = lettered();
    g.scroll(&scroll(1, 4, 1, 3, -2));
    assert_eq!(texts(&g), vec!["aaaa", "bbbb", "cccc", "dbbd", "eeee"]);
}

#[test]
fn scroll_that_moves_nothing() {
    let before = texts(&lettered());
    for s in [
        scroll(0, 5, 0, 4, 0),
        scroll(0, 5, 0, 4, 5),
        scroll(0, 5, 0, 4, -5),
        scroll(0, 5, 0, 4, i64::MAX),
        scroll(0, 5, 0, 4, i64::MIN),
        scroll(0, 6, 0, 4, 1),
        scroll(0, 5, 0, 5, 1),
        scroll(-1, 5, 0, 4, 1),
        scroll(3, 2, 0, 4, 1),
        scroll(0, 5, 3, 2, 1),
        scroll(2, 2, 0, 4, 1),
    ] {
        let mut g = lettered();
        g.scroll(&s);
        assert_eq!(texts(&g), before);
    }
}
