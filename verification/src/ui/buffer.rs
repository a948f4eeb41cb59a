//! The cells of a grid, as the events fill them.

use crate::types::uievents::{GridLine, GridLineCellView, GridLineView, GridScroll};
use vstd::prelude::*;

verus! {

/// One cell of a grid.
#[derive(Debug, PartialEq, Eq)]
pub struct Cell {
    /// What the cell shows; nothing in a cell that was never filled.
    pub text: String,
    /// The highlight of the cell.
    pub hl_id: i64,
}

/// Mathematical model of a [`Cell`].
pub struct CellView {
    pub text: Seq<char>,
    pub hl_id: i64,
}

impl DeepView for Cell {
    type V = CellView;

    open spec fn deep_view(&self) -> CellView {
        CellView { text: self.text@, hl_id: self.hl_id }
    }
}

impl Clone for Cell {
    fn clone(&self) -> (c: Cell)
        ensures
            c.deep_view() == self.deep_view(),
    {
        Cell { text: self.text.clone(), hl_id: self.hl_id }
    }
}

/// The cell that was never filled.
pub open spec fn blank() -> CellView {
    CellView { text: Seq::empty(), hl_id: 0 }
}

impl Cell {
    /// A cell that shows nothing.
    pub fn new() -> (c: Cell)
        ensures
            c.deep_view() == blank(),
    {
        Cell { text: String::new(), hl_id: 0 }
    }
}

/// The cells of one grid, row by row.
pub struct GridBuffer {
    width: usize,
    rows: Vec<Vec<Cell>>,
}

/// Mathematical model of a [`GridBuffer`].
pub struct GridView {
    /// The number of columns.
    pub width: nat,
    /// The rows from the top, each with its cells from the left.
    pub rows: Seq<Seq<CellView>>,
}

impl View for GridBuffer {
    type V = GridView;

    closed spec fn view(&self) -> GridView {
        GridView { width: self.width as nat, rows: self.rows.deep_view() }
    }
}

impl GridView {
    /// Every row has as many cells as the grid has columns.
    pub open spec fn wf(self) -> bool {
        forall|r: int| 0 <= r < self.rows.len() ==> (#[trigger] self.rows[r]).len() == self.width
    }

    /// The number of rows.
    pub open spec fn height(self) -> nat {
        self.rows.len()
    }

    /// The cell at `row` and `col`, blank outside the grid.
    pub open spec fn cell(self, row: int, col: int) -> CellView {
        if 0 <= row < self.rows.len() && 0 <= col < self.rows[row].len() {
            self.rows[row][col]
        } else {
            blank()
        }
    }

    /// The grid with `width` columns and `height` rows that keeps the cells
    /// which both sizes have, and is blank elsewhere.
    pub open spec fn resized(self, width: nat, height: nat) -> GridView {
        GridView {
            width,
            rows: Seq::new(height, |r: int| Seq::new(width, |c: int| self.cell(r, c))),
        }
    }

    /// The grid of the same size with every cell blank.
    pub open spec fn cleared(self) -> GridView {
        GridView {
            width: self.width,
            rows: Seq::new(self.rows.len(), |r: int| Seq::new(self.width, |c: int| blank())),
        }
    }
}

/// A row of `width` blank cells.
fn blank_row(width: usize) -> (row: Vec<Cell>)
    ensures
        row.deep_view() == Seq::new(width as nat, |c: int| blank()),
{
    let mut row: Vec<Cell> = Vec::new();
    let mut c: usize = 0;
    while c < width
        invariant
            c <= width,
            row@.len() == c,
            forall|k: int| 0 <= k < c ==> (#[trigger] row@[k]).deep_view() == blank(),
        decreases width - c,
    {
        row.push(Cell::new());
        c = c + 1;
    }
    assert(row.deep_view() =~= Seq::new(width as nat, |c: int| blank()));
    row
}

impl GridBuffer {
    /// Whether the buffer's state is valid. Every buffer that this library
    /// hands out or leaves behind is.
    pub open spec fn wf(&self) -> bool {
        self@.wf()
    }

    /// A grid without cells.
    pub fn new() -> (g: GridBuffer)
        ensures
            g.wf(),
            g@ == (GridView { width: 0, rows: Seq::empty() }),
    {
        let g = GridBuffer { width: 0, rows: Vec::new() };
        assert(g.rows.deep_view() =~= Seq::empty());
        g
    }

    /// The numbers of columns and of rows.
    pub fn grid_size(&self) -> (size: (usize, usize))
        ensures
            size.0 == self@.width,
            size.1 == self@.height(),
    {
        (self.width, self.rows.len())
    }

    /// The cell at `row` and `col`, where the grid has one.
    pub fn cell_at(&self, row: i64, col: i64) -> (r: Option<&Cell>)
        requires
            self.wf(),
        ensures
            r is Some <==> 0 <= row < self@.height() && 0 <= col < self@.width,
            r matches Some(cell) ==> cell.deep_view() == self@.rows[row as int][col as int],
    {
        if row < 0 || col < 0 {
            return None;
        }
        if row as u64 >= self.rows.len() as u64 {
            return None;
        }
        assert(self@.rows[row as int].len() == self@.width);
        let cells = &self.rows[row as usize];
        if col as u64 >= cells.len() as u64 {
            return None;
        }
        Some(&cells[col as usize])
    }

    /// The text of the cell at `row` and `col`; no text where the grid has
    /// no such cell.
    pub fn text_at(&self, row: i64, col: i64) -> (text: String)
        requires
            self.wf(),
        ensures
            text@ == self@.cell(row as int, col as int).text,
    {
        match self.cell_at(row, col) {
            Some(cell) => cell.text.clone(),
            None => String::new(),
        }
    }

    /// Gives the grid `width` columns and `height` rows. Cells that both
    /// sizes have stay; new cells are blank.
    pub fn resize(&mut self, width: usize, height: usize)
        requires
            old(self).wf(),
        ensures
            final(self).wf(),
            final(self)@ == old(self)@.resized(width as nat, height as nat),
    {
        let ghost before = self@;
        let mut rows: Vec<Vec<Cell>> = Vec::new();
        let mut r: usize = 0;
        while r < height
            invariant
                r <= height,
                self.wf(),
                self@ == before,
                rows@.len() == r,
                forall|k: int|
                    0 <= k < r ==> (#[trigger] rows@[k]).deep_view() == Seq::new(
                        width as nat,
                        |c: int| before.cell(k, c),
                    ),
            decreases height - r,
        {
            let mut row: Vec<Cell> = Vec::new();
            let mut c: usize = 0;
            while c < width
                invariant
                    c <= width,
                    r < height,
                    self.wf(),
                    self@ == before,
                    row@.len() == c,
                    forall|k: int|
                        0 <= k < c ==> (#[trigger] row@[k]).deep_view() == before.cell(r as int, k),
                decreases width - c,
            {
                let cell = if r < self.rows.len() && c < self.width {
                    assert(self@.rows[r as int].len() == self@.width);
                    self.rows[r][c].clone()
                } else {
                    Cell::new()
                };
                row.push(cell);
                c = c + 1;
            }
            assert(row.deep_view() =~= Seq::new(width as nat, |c: int| before.cell(r as int, c)));
            rows.push(row);
            r = r + 1;
        }
        self.rows = rows;
        self.width = width;
        assert(self@.rows =~= before.resized(width as nat, height as nat).rows);
    }

    /// Blanks every cell.
    pub fn clear(&mut self)
        requires
            old(self).wf(),
        ensures
            final(self).wf(),
            final(self)@ == old(self)@.cleared(),
    {
        let height = self.rows.len();
        let mut rows: Vec<Vec<Cell>> = Vec::new();
        let mut r: usize = 0;
        while r < height
            invariant
                r <= height,
                rows@.len() == r,
                forall|k: int|
                    0 <= k < r ==> (#[trigger] rows@[k]).deep_view() == Seq::new(
                        self.width as nat,
                        |c: int| blank(),
                    ),
            decreases height - r,
        {
            rows.push(blank_row(self.width));
            r = r + 1;
        }
        self.rows = rows;
        assert(self@.rows =~= old(self)@.cleared().rows);
    }
}

/// How many cells a run fills: as many as it says, none for a number below
/// one, one where it says nothing.
pub open spec fn run_len(cell: GridLineCellView) -> nat {
    match cell.repeat {
        Some(n) => if n > 0 {
            n as nat
        } else {
            0
        },
        None => 1,
    }
}

/// The highlight of a run: its own, or else the one carried over from the
/// run before.
pub open spec fn run_hl(cell: GridLineCellView, carried: i64) -> i64 {
    match cell.hl_id {
        Some(h) => h,
        None => carried,
    }
}

/// The cells of one run.
pub open spec fn run(cell: GridLineCellView, carried: i64) -> Seq<CellView> {
    Seq::new(run_len(cell), |k: int| CellView { text: cell.text, hl_id: run_hl(cell, carried) })
}

/// The cells of a row of runs, one run after the other, each run without a
/// highlight of its own taking that of the run before.
pub open spec fn expand(cells: Seq<GridLineCellView>, carried: i64) -> Seq<CellView>
    decreases cells.len(),
{
    if cells.len() == 0 {
        Seq::empty()
    } else {
        run(cells[0], carried) + expand(cells.skip(1), run_hl(cells[0], carried))
    }
}

/// The row with `cells` laid over it from column `from` on. Cells that
/// would lie beyond the end of the row are dropped.
pub open spec fn overlay(row: Seq<CellView>, from: int, cells: Seq<CellView>) -> Seq<CellView> {
    Seq::new(
        row.len(),
        |c: int|
            if from <= c < from + cells.len() {
                cells[c - from]
            } else {
                row[c]
            },
    )
}

impl GridView {
    /// The grid after a `grid_line` event: the runs of the event lie over
    /// its row from its column on. An event for a row or a column that the
    /// grid has not changes nothing.
    pub open spec fn put(self, line: GridLineView) -> GridView {
        if 0 <= line.row < self.rows.len() && 0 <= line.col_start <= self.width {
            GridView {
                rows: self.rows.update(
                    line.row as int,
                    overlay(self.rows[line.row as int], line.col_start as int, expand(line.cells, 0)),
                ),
                ..self
            }
        } else {
            self
        }
    }

    /// Whether the region of a `grid_scroll` event lies in the grid.
    pub open spec fn holds(self, s: GridScroll) -> bool {
        0 <= s.top <= s.bot <= self.rows.len() && 0 <= s.left <= s.right <= self.width
    }

    /// The grid after a `grid_scroll` event: within the region, each cell
    /// takes what stood `rows` rows below it, where that is within the
    /// region too; every other cell stays. An event for a region that the
    /// grid has not changes nothing.
    pub open spec fn scrolled(self, s: GridScroll) -> GridView {
        if self.holds(s) {
            GridView {
                rows: Seq::new(
                    self.rows.len(),
                    |r: int| Seq::new(self.width, |c: int| self.scrolled_cell(s, r, c)),
                ),
                ..self
            }
        } else {
            self
        }
    }

    /// The cell at `r` and `c` after the scroll `s`.
    pub open spec fn scrolled_cell(self, s: GridScroll, r: int, c: int) -> CellView {
        if s.top <= r < s.bot && s.left <= c < s.right && s.top <= r + s.rows < s.bot {
            self.rows[r + s.rows][c]
        } else {
            self.rows[r][c]
        }
    }
}

/// Copies the cells of `src` from column `left` up to `right` into `row`.
fn copy_cells(row: &mut Vec<Cell>, src: &Vec<Cell>, left: usize, right: usize)
    requires
        left <= right <= old(row)@.len() == src@.len(),
    ensures
        final(row)@.len() == old(row)@.len(),
        forall|c: int|
            0 <= c < src@.len() ==> (#[trigger] final(row)@[c]).deep_view() == (if left <= c
                < right {
                src@[c].deep_view()
            } else {
                old(row)@[c].deep_view()
            }),
{
    let mut c: usize = left;
    while c < right
        invariant
            left <= c <= right <= row@.len() == src@.len() == old(row)@.len(),
            forall|k: int|
                0 <= k < src@.len() ==> (#[trigger] row@[k]).deep_view() == (if left <= k < c {
                    src@[k].deep_view()
                } else {
                    old(row)@[k].deep_view()
                }),
        decreases right - c,
    {
        row.set(c, src[c].clone());
        c = c + 1;
    }
}

impl GridBuffer {
    /// Takes in a `grid_line` event.
    pub fn put(&mut self, line: &GridLine)
        requires
            old(self).wf(),
        ensures
            final(self).wf(),
            final(self)@ == old(self)@.put(line.deep_view()),
    {
        if line.row < 0 || line.col_start < 0 {
            return;
        }
        if line.row as u64 >= self.rows.len() as u64 || line.col_start as u64 > self.width as u64 {
            return;
        }
        let r = line.row as usize;
        let from = line.col_start as usize;
        let width = self.width;
        let ghost before = self.rows.deep_view();
        let ghost all = line.cells.deep_view();
        assert(before == self@.rows);
        assert(self@.rows[r as int].len() == self@.width);
        assert(before[r as int].len() == width);
        let mut row = self.rows.remove(r);
        let ghost old_row = row.deep_view();
        let mut col: usize = from;
        let mut hl: i64 = 0;
        let ghost mut written: Seq<CellView> = Seq::empty();
        let mut i: usize = 0;
        assert(row.deep_view() =~= overlay(old_row, from as int, written));
        assert(all.skip(0) =~= all);
        assert(Seq::<CellView>::empty() + expand(all, 0) =~= expand(all, 0));
        while i < line.cells.len()
            invariant
                i <= line.cells@.len(),
                all == line.cells.deep_view(),
                row@.len() == width == old_row.len(),
                from <= col <= width,
                col == (if from + written.len() < width {
                    from + written.len()
                } else {
                    width as int
                }),
                row.deep_view() == overlay(old_row, from as int, written),
                expand(all, 0) == written + expand(all.skip(i as int), hl),
            decreases line.cells@.len() - i,
        {
            let cell = &line.cells[i];
            let ghost model = all[i as int];
            assert(model == cell.deep_view());
            let this_hl = match cell.hl_id {
                Some(h) => h,
                None => hl,
            };
            let count: u64 = match cell.repeat {
                Some(n) => if n > 0 {
                    n as u64
                } else {
                    0
                },
                None => 1,
            };
            let ghost this_run = run(model, hl);
            let mut k: u64 = 0;
            assert(written + this_run.take(0) =~= written);
            while k < count && col < width
                invariant
                    k <= count == this_run.len(),
                    row@.len() == width == old_row.len(),
                    from <= col <= width,
                    this_run == run(model, hl),
                    model == cell.deep_view(),
                    this_hl == run_hl(model, hl),
                    col == (if from + written.len() + k < width {
                        from + written.len() + k
                    } else {
                        width as int
                    }),
                    row.deep_view() == overlay(old_row, from as int, written + this_run.take(k as int)),
                decreases count - k,
            {
                let ghost so_far = written + this_run.take(k as int);
                let ghost row_before = row.deep_view();
                let filled = Cell { text: cell.text.clone(), hl_id: this_hl };
                assert(filled.deep_view() == this_run[k as int]);
                row.set(col, filled);
                proof {
                    let now = written + this_run.take(k + 1);
                    assert(now =~= so_far.push(this_run[k as int]));
                    assert(col == from + so_far.len());
                    assert(row.deep_view() =~= row_before.update(col as int, this_run[k as int]));
                    assert forall|c: int| 0 <= c < width implies row.deep_view()[c] == overlay(
                        old_row,
                        from as int,
                        now,
                    )[c] by {
                        if c == col {
                            assert(now[c - from] == this_run[k as int]);
                        } else {
                            assert(row_before[c] == overlay(old_row, from as int, so_far)[c]);
                            if from <= c < from + so_far.len() {
                                assert(now[c - from] == so_far[c - from]);
                            }
                        }
                    }
                    assert(row.deep_view() =~= overlay(old_row, from as int, now));
                }
                col = col + 1;
                k = k + 1;
            }
            proof {
                let so_far = written + this_run.take(k as int);
                let now = written + this_run;
                if k == count {
                    assert(this_run.take(k as int) =~= this_run);
                }
                assert(overlay(old_row, from as int, so_far) =~= overlay(old_row, from as int, now));
                let rest = all.skip(i as int);
                assert(rest[0] == model);
                assert(rest.skip(1) =~= all.skip(i + 1));
                assert(written + expand(rest, hl) =~= now + expand(all.skip(i + 1), this_hl));
                written = now;
            }
            hl = this_hl;
            i = i + 1;
        }
        assert(all.skip(i as int) =~= Seq::empty());
        assert(written + Seq::<CellView>::empty() =~= written);
        let ghost new_row = row.deep_view();
        self.rows.insert(r, row);
        assert(self.rows.deep_view() =~= before.update(r as int, new_row));
        assert forall|k: int| 0 <= k < self@.rows.len() implies (#[trigger] self@.rows[k]).len()
            == self@.width by {
            if k != r {
                assert(self@.rows[k] == old(self)@.rows[k]);
            }
        }
    }

    /// Takes in a `grid_scroll` event.
    pub fn scroll(&mut self, s: &GridScroll)
        requires
            old(self).wf(),
        ensures
            final(self).wf(),
            final(self)@ == old(self)@.scrolled(*s),
    {
        let ghost before = self@;
        let height = self.rows.len();
        let width = self.width;
        if s.top < 0 || s.left < 0 || s.top > s.bot || s.left > s.right {
            return;
        }
        if s.bot as u64 > height as u64 || s.right as u64 > width as u64 {
            return;
        }
        let top = s.top as usize;
        let bot = s.bot as usize;
        let left = s.left as usize;
        let right = s.right as usize;
        if s.rows > 0 && (s.rows as u64) < (bot - top) as u64 {
            let by = s.rows as usize;
            let mut r: usize = top;
            while r < bot - by
                invariant
                    top <= r <= bot - by,
                    by == s.rows > 0,
                    top == s.top,
                    bot == s.bot <= height == self.rows@.len() == before.rows.len(),
                    left == s.left <= right == s.right <= width == self.width == before.width,
                    before.wf(),
                    forall|k: int|
                        0 <= k < height ==> (#[trigger] self.rows@[k]).deep_view() == (if top <= k
                            < r {
                            Seq::new(width as nat, |c: int| before.scrolled_cell(*s, k, c))
                        } else {
                            before.rows[k]
                        }),
                decreases bot - by - r,
            {
                let ghost rows_before = self.rows@;
                assert(rows_before[r as int].deep_view() == before.rows[r as int]);
                assert(rows_before[r + by].deep_view() == before.rows[r + by]);
                assert(before.rows[r as int].len() == width);
                assert(before.rows[r + by].len() == width);
                let mut row = self.rows.remove(r);
                copy_cells(&mut row, &self.rows[r + by - 1], left, right);
                assert(row.deep_view() =~= Seq::new(
                    width as nat,
                    |c: int| before.scrolled_cell(*s, r as int, c),
                ));
                self.rows.insert(r, row);
                assert forall|k: int| 0 <= k < height implies (#[trigger] self.rows@[k]).deep_view()
                    == (if top <= k < r + 1 {
                    Seq::new(width as nat, |c: int| before.scrolled_cell(*s, k, c))
                } else {
                    before.rows[k]
                }) by {
                    if k != r {
                        assert(self.rows@[k] == rows_before[k]);
                    }
                }
                r = r + 1;
            }
        } else if s.rows < 0 && s.rows > -((bot - top) as i64) {
            let by = (-s.rows) as usize;
            let mut r: usize = bot;
            while r > top + by
                invariant
                    top + by <= r <= bot,
                    by == -s.rows > 0,
                    top == s.top,
                    bot == s.bot <= height == self.rows@.len() == before.rows.len(),
                    left == s.left <= right == s.right <= width == self.width == before.width,
                    before.wf(),
                    forall|k: int|
                        0 <= k < height ==> (#[trigger] self.rows@[k]).deep_view() == (if r <= k
                            < bot {
                            Seq::new(width as nat, |c: int| before.scrolled_cell(*s, k, c))
                        } else {
                            before.rows[k]
                        }),
                decreases r,
            {
                r = r - 1;
                let ghost rows_before = self.rows@;
                assert(rows_before[r as int].deep_view() == before.rows[r as int]);
                assert(rows_before[r - by].deep_view() == before.rows[r - by]);
                assert(before.rows[r as int].len() == width);
                assert(before.rows[r - by].len() == width);
                let mut row = self.rows.remove(r);
                copy_cells(&mut row, &self.rows[r - by], left, right);
                assert(row.deep_view() =~= Seq::new(
                    width as nat,
                    |c: int| before.scrolled_cell(*s, r as int, c),
                ));
                self.rows.insert(r, row);
                assert forall|k: int| 0 <= k < height implies (#[trigger] self.rows@[k]).deep_view()
                    == (if r <= k < bot {
                    Seq::new(width as nat, |c: int| before.scrolled_cell(*s, k, c))
                } else {
                    before.rows[k]
                }) by {
                    if k != r {
                        assert(self.rows@[k] == rows_before[k]);
                    }
                }
            }
        }
        assert forall|k: int| 0 <= k < height implies (#[trigger] self.rows.deep_view()[k])
            == Seq::new(width as nat, |c: int| before.scrolled_cell(*s, k, c)) by {
            assert(self.rows.deep_view()[k] == self.rows@[k].deep_view());
            assert(before.rows[k].len() == width);
            assert(before.rows[k] =~= Seq::new(width as nat, |c: int| before.rows[k][c]));
            assert(self.rows@[k].deep_view() =~= Seq::new(
                width as nat,
                |c: int| before.scrolled_cell(*s, k, c),
            ));
        }
        assert(self.rows.deep_view() =~= before.scrolled(*s).rows);
    }
}

} // verus!
