//! The pane on the stage: the cells last seen of it, what a frame does to
//! them, where the caret goes, and what happens when the connection drops.
//! Times are in milliseconds.
use vstd::prelude::*;

use crate::text::{cat3, cat5, same};
use crate::types::{Bench, BenchModel, BenchOf, PaneId};

verus! {

/// How long a stage that is lost waits between two attempts to open it again.
pub const STAGE_RETRY: u64 = 1_000;

/// A color of a cell.
#[derive(Clone, Copy, Debug, PartialEq, Eq, Structural)]
pub enum Color {
    Default,
    Indexed(u8),
    Rgb(u8, u8, u8),
}

/// How the text of a cell is set.
#[derive(Clone, Copy, Debug, PartialEq, Eq, Structural)]
pub struct Mods {
    pub bold: bool,
    pub italic: bool,
    pub underline: bool,
    pub reverse: bool,
    pub dim: bool,
    pub crossed_out: bool,
}

/// A cell of a screen.
#[verifier::ext_equal]
#[derive(Clone, Debug, PartialEq, Eq)]
pub struct CellOf<S> {
    pub symbol: S,
    pub fg: Color,
    pub bg: Color,
    pub mods: Mods,
}

pub type Cell = CellOf<String>;

pub type CellModel = CellOf<Seq<char>>;

impl View for CellOf<String> {
    type V = CellOf<Seq<char>>;

    open spec fn view(&self) -> CellOf<Seq<char>> {
        CellOf { symbol: self.symbol@, fg: self.fg, bg: self.bg, mods: self.mods }
    }
}

/// What some cells hold.
pub open spec fn cells_model(v: Seq<Cell>) -> Seq<CellModel> {
    Seq::new(v.len(), |i: int| v[i]@)
}

/// Text that is set plainly.
pub open spec fn no_mods() -> Mods {
    Mods {
        bold: false,
        italic: false,
        underline: false,
        reverse: false,
        dim: false,
        crossed_out: false,
    }
}

/// An empty cell.
pub open spec fn blank() -> CellModel {
    CellOf { symbol: " "@, fg: Color::Default, bg: Color::Default, mods: no_mods() }
}

fn blank_cell() -> (c: Cell)
    ensures
        c@ == blank(),
{
    CellOf {
        symbol: " ".to_owned(),
        fg: Color::Default,
        bg: Color::Default,
        mods: Mods {
            bold: false,
            italic: false,
            underline: false,
            reverse: false,
            dim: false,
            crossed_out: false,
        },
    }
}

fn clone_cell(c: &Cell) -> (r: Cell)
    ensures
        r@ == c@,
{
    CellOf { symbol: c.symbol.clone(), fg: c.fg, bg: c.bg, mods: c.mods }
}

/// A rectangle of a screen.
#[derive(Clone, Copy, Debug, PartialEq, Eq, Structural)]
pub struct Area {
    pub x: u16,
    pub y: u16,
    pub width: u16,
    pub height: u16,
}

/// The cells of a rectangle, row by row.
#[verifier::ext_equal]
#[derive(Clone, Debug, PartialEq, Eq)]
pub struct GridOf<C> {
    pub area: Area,
    pub cells: C,
}

pub type Grid = GridOf<Vec<Cell>>;

pub type GridModel = GridOf<Seq<CellModel>>;

impl View for GridOf<Vec<Cell>> {
    type V = GridModel;

    open spec fn view(&self) -> GridModel {
        GridOf { area: self.area, cells: cells_model(self.cells@) }
    }
}

impl GridOf<Seq<CellModel>> {
    /// Whether there is a cell for every place of the rectangle.
    pub open spec fn wf(self) -> bool {
        self.cells.len() == self.area.width as int * self.area.height as int
    }

    /// The cell at a place of the rectangle, counted from its corner.
    pub open spec fn at(self, x: int, y: int) -> CellModel {
        self.cells[y * self.area.width as int + x]
    }
}

/// A rectangle of empty cells.
pub open spec fn empty_grid(area: Area) -> GridModel {
    GridOf {
        area,
        cells: Seq::new((area.width as int * area.height as int) as nat, |i: int| blank()),
    }
}

proof fn area_fits(area: Area)
    ensures
        0 <= area.width as int * area.height as int <= 0xffff * 0xffff,
{
    assert(0 <= area.width as int * area.height as int <= 0xffff * 0xffff) by (nonlinear_arith)
        requires
            0 <= area.width as int <= 0xffff,
            0 <= area.height as int <= 0xffff,
    ;
}

proof fn place_fits(x: int, y: int, w: int, h: int)
    requires
        0 <= x < w,
        0 <= y < h,
    ensures
        0 <= y * w + x < w * h,
        0 <= y * w,
{
    assert(0 <= y * w) by (nonlinear_arith)
        requires
            0 <= y,
            0 <= w,
    ;
    assert(y * w + x < w * h) by (nonlinear_arith)
        requires
            0 <= x < w,
            0 <= y < h,
    ;
}

impl GridOf<Vec<Cell>> {
    /// A rectangle of empty cells.
    pub fn empty(area: Area) -> (g: Grid)
        ensures
            g@ == empty_grid(area),
            g@.wf(),
    {
        proof {
            area_fits(area);
        }
        let n: u32 = area.width as u32 * area.height as u32;
        let mut cells: Vec<Cell> = Vec::new();
        let mut i: u32 = 0;
        while i < n
            invariant
                i <= n,
                cells@.len() == i,
                forall|j: int| 0 <= j < cells@.len() ==> (#[trigger] cells@[j])@ == blank(),
            decreases n - i,
        {
            cells.push(blank_cell());
            i = i + 1;
        }
        let g: Grid = GridOf { area, cells };
        assert(g@.cells =~= empty_grid(area).cells);
        g
    }

    /// Makes every cell empty.
    pub fn reset(&mut self)
        requires
            old(self)@.wf(),
        ensures
            final(self)@ == empty_grid(old(self)@.area),
            final(self)@.wf(),
    {
        *self = Grid::empty(self.area);
    }

    /// Sets the cell at a place of the rectangle, counted from its corner.
    pub fn put(&mut self, x: u16, y: u16, cell: &Cell)
        requires
            old(self)@.wf(),
            x < old(self)@.area.width,
            y < old(self)@.area.height,
        ensures
            final(self)@ == (GridOf {
                cells: old(self)@.cells.update(
                    y as int * old(self)@.area.width as int + x as int,
                    cell@,
                ),
                ..old(self)@
            }),
            final(self)@.wf(),
    {
        proof {
            place_fits(x as int, y as int, self.area.width as int, self.area.height as int);
            area_fits(self.area);
        }
        let row: u32 = y as u32 * self.area.width as u32;
        let i: usize = row as usize + x as usize;
        let ghost before = self@.cells;
        self.cells.set(i, clone_cell(cell));
        assert(self@.cells =~= before.update(i as int, cell@));
    }
}

/// A run of cells in one row of a pane, from a column on.
#[derive(Clone, Debug, PartialEq, Eq)]
pub struct CellRun {
    pub x: u16,
    pub y: u16,
    pub cells: Vec<Cell>,
}

/// What has changed on a pane since the last frame, or all of it. The cursor
/// is counted from the pane's corner.
#[derive(Clone, Debug, PartialEq, Eq)]
pub struct Frame {
    pub full: bool,
    pub runs: Vec<CellRun>,
    pub cursor: Option<(u16, u16)>,
    pub wants_mouse: bool,
}

/// How many columns of a terminal a text takes up.
pub uninterp spec fn columns(s: Seq<char>) -> usize;

/// The `unicode-width` crate's `UnicodeWidthStr::width` of a text: how many
/// columns of a terminal the text takes up, which depends on its characters
/// alone. What that number is for a given text is left to the crate.
#[verifier::external_body]
fn display_width(s: &str) -> (n: usize)
    ensures
        n == columns(s@),
{
    unicode_width::UnicodeWidthStr::width(s)
}

/// How far a symbol moves the place of the next: its own width, and at least
/// one column, counted in sixteen bits.
pub open spec fn advance(width: usize) -> int {
    (if width > 1 {
        width as int
    } else {
        1
    }) % 0x1_0000
}

/// A row of cells written from a column on, each as far to the right as those
/// before it are wide. What would stand outside the rectangle is not written.
pub open spec fn run_from(
    g: GridModel,
    x: int,
    y: int,
    cells: Seq<CellModel>,
    widths: Seq<usize>,
) -> GridModel
    decreases cells.len(),
{
    if cells.len() == 0 || widths.len() == 0 || x >= g.area.width || y >= g.area.height {
        g
    } else {
        run_from(
            GridOf { cells: g.cells.update(y * g.area.width as int + x, cells[0]), ..g },
            x + advance(widths[0]),
            y,
            cells.skip(1),
            widths.skip(1),
        )
    }
}

/// Writes a run of cells whose widths are given.
pub fn apply_run(g: &mut Grid, run: &CellRun, widths: &Vec<usize>)
    requires
        old(g)@.wf(),
        widths@.len() == run.cells@.len(),
    ensures
        final(g)@.wf(),
        final(g)@ == run_from(
            old(g)@,
            run.x as int,
            run.y as int,
            cells_model(run.cells@),
            widths@,
        ),
{
    let ghost cells = cells_model(run.cells@);
    let ghost start = g@;
    let ghost want = run_from(start, run.x as int, run.y as int, cells, widths@);
    let area = g.area;
    let mut x: u32 = run.x as u32;
    let mut i: usize = 0;
    assert(cells.skip(0) =~= cells);
    assert(widths@.skip(0) =~= widths@);
    while i < run.cells.len() && x < area.width as u32 && run.y < area.height
        invariant
            i <= run.cells@.len(),
            widths@.len() == run.cells@.len(),
            cells == cells_model(run.cells@),
            x <= 0x1_ffff,
            g@.wf(),
            g@.area == area,
            run_from(g@, x as int, run.y as int, cells.skip(i as int), widths@.skip(i as int))
                == want,
        decreases run.cells@.len() - i,
    {
        proof {
            assert(cells.skip(i as int)[0] == run.cells@[i as int]@);
            assert(cells.skip(i as int).skip(1) =~= cells.skip(i as int + 1));
            assert(widths@.skip(i as int).skip(1) =~= widths@.skip(i as int + 1));
            assert(widths@.skip(i as int)[0] == widths@[i as int]);
        }
        g.put(x as u16, run.y, &run.cells[i]);
        let wide: usize = if widths[i] > 1 {
            widths[i]
        } else {
            1
        };
        let on: u32 = (wide % 0x1_0000) as u32;
        x = x + on;
        i = i + 1;
    }
}

/// What the first runs of a frame do to some cells, with the widths that the
/// symbols have.
pub open spec fn runs_applied(g: GridModel, runs: Seq<CellRun>) -> GridModel
    decreases runs.len(),
{
    if runs.len() == 0 {
        g
    } else {
        let run = runs.last();
        run_from(
            runs_applied(g, runs.drop_last()),
            run.x as int,
            run.y as int,
            cells_model(run.cells@),
            Seq::new(run.cells@.len(), |i: int| columns(run.cells@[i].symbol@)),
        )
    }
}

/// What a frame does to the cells of a pane: a full one starts from empty
/// cells.
pub open spec fn frame_applied(g: GridModel, frame: Frame) -> GridModel {
    runs_applied(
        if frame.full {
            empty_grid(g.area)
        } else {
            g
        },
        frame.runs@,
    )
}

/// Applies a frame to the cells of a pane.
pub fn apply_frame(buf: &mut Grid, frame: &Frame)
    requires
        old(buf)@.wf(),
    ensures
        final(buf)@ == frame_applied(old(buf)@, *frame),
        final(buf)@.wf(),
{
    if frame.full {
        buf.reset();
    }
    let ghost start = buf@;
    let mut r: usize = 0;
    assert(frame.runs@.take(0) =~= Seq::<CellRun>::empty());
    while r < frame.runs.len()
        invariant
            r <= frame.runs@.len(),
            buf@.wf(),
            buf@ == runs_applied(start, frame.runs@.take(r as int)),
        decreases frame.runs@.len() - r,
    {
        let run = &frame.runs[r];
        let mut widths: Vec<usize> = Vec::new();
        let mut i: usize = 0;
        while i < run.cells.len()
            invariant
                i <= run.cells@.len(),
                widths@.len() == i,
                forall|j: int| 0 <= j < i ==> #[trigger] widths@[j] == columns(run.cells@[j].symbol@),
            decreases run.cells@.len() - i,
        {
            widths.push(display_width(run.cells[i].symbol.as_str()));
            i = i + 1;
        }
        proof {
            assert(widths@ =~= Seq::new(
                run.cells@.len(),
                |i: int| columns(run.cells@[i].symbol@),
            ));
            assert(frame.runs@.take(r as int + 1).drop_last() =~= frame.runs@.take(r as int));
            assert(frame.runs@.take(r as int + 1).last() == *run);
        }
        apply_run(buf, run, &widths);
        r = r + 1;
    }
    assert(frame.runs@.take(r as int) =~= frame.runs@);
}

proof fn run_keeps_rows(
    g: GridModel,
    x: int,
    y: int,
    cells: Seq<CellModel>,
    widths: Seq<usize>,
    ox: int,
    oy: int,
)
    requires
        g.wf(),
        0 <= x,
        0 <= y,
        0 <= ox < g.area.width,
        0 <= oy < g.area.height,
        oy != y || ox < x,
    ensures
        run_from(g, x, y, cells, widths).wf(),
        run_from(g, x, y, cells, widths).area == g.area,
        run_from(g, x, y, cells, widths).at(ox, oy) == g.at(ox, oy),
    decreases cells.len(),
{
    if cells.len() > 0 && widths.len() > 0 && x < g.area.width && y < g.area.height {
        let w = g.area.width as int;
        let next = GridOf { cells: g.cells.update(y * w + x, cells[0]), ..g };
        place_fits(x, y, w, g.area.height as int);
        place_fits(ox, oy, w, g.area.height as int);
        assert(y * w + x != oy * w + ox) by {
            if oy != y {
                assert(y * w + x != oy * w + ox) by (nonlinear_arith)
                    requires
                        0 <= x < w,
                        0 <= ox < w,
                        oy != y,
                ;
            }
        }
        run_keeps_rows(
            next,
            x + advance(widths[0]),
            y,
            cells.skip(1),
            widths.skip(1),
            ox,
            oy,
        );
    }
}

/// A run changes only its own row, from its first column on.
pub proof fn a_run_stays_in_its_row(
    g: GridModel,
    run: CellRun,
    widths: Seq<usize>,
    x: int,
    y: int,
)
    requires
        g.wf(),
        0 <= x < g.area.width,
        0 <= y < g.area.height,
        y != run.y || x < run.x,
    ensures
        run_from(g, run.x as int, run.y as int, cells_model(run.cells@), widths).at(x, y) == g.at(
            x,
            y,
        ),
{
    run_keeps_rows(g, run.x as int, run.y as int, cells_model(run.cells@), widths, x, y);
}

proof fn runs_keep(g: GridModel, runs: Seq<CellRun>, x: int, y: int)
    requires
        g.wf(),
        0 <= x < g.area.width,
        0 <= y < g.area.height,
        forall|i: int| 0 <= i < runs.len() ==> (#[trigger] runs[i]).y != y || x < runs[i].x,
    ensures
        runs_applied(g, runs).wf(),
        runs_applied(g, runs).area == g.area,
        runs_applied(g, runs).at(x, y) == g.at(x, y),
    decreases runs.len(),
{
    if runs.len() > 0 {
        let before = runs.drop_last();
        assert forall|i: int| 0 <= i < before.len() implies (#[trigger] before[i]).y != y || x
            < before[i].x by {
            assert(before[i] == runs[i]);
        }
        runs_keep(g, before, x, y);
        let run = runs.last();
        assert(runs[runs.len() - 1].y != y || x < runs[runs.len() - 1].x);
        run_keeps_rows(
            runs_applied(g, before),
            run.x as int,
            run.y as int,
            cells_model(run.cells@),
            Seq::new(run.cells@.len(), |i: int| columns(run.cells@[i].symbol@)),
            x,
            y,
        );
    }
}

/// A full frame leaves nothing of what was on screen before: a cell that none
/// of its runs reaches is empty. A frame that is not full leaves such a cell as
/// it was.
pub proof fn a_full_frame_replaces_the_screen(g: GridModel, frame: Frame, x: int, y: int)
    requires
        g.wf(),
        0 <= x < g.area.width,
        0 <= y < g.area.height,
        forall|i: int|
            0 <= i < frame.runs@.len() ==> (#[trigger] frame.runs@[i]).y != y || x
                < frame.runs@[i].x,
    ensures
        frame.full ==> frame_applied(g, frame).at(x, y) == blank(),
        !frame.full ==> frame_applied(g, frame).at(x, y) == g.at(x, y),
{
    area_fits(g.area);
    place_fits(x, y, g.area.width as int, g.area.height as int);
    runs_keep(
        if frame.full {
            empty_grid(g.area)
        } else {
            g
        },
        frame.runs@,
        x,
        y,
    );
}

/// The first cell of a run stands where the run begins, and the next as far
/// behind it as it is wide.
pub proof fn a_wide_symbol_moves_the_next(g: GridModel, y: int, a: CellModel, b: CellModel, x: int, wide: usize, w2: usize)
    requires
        g.wf(),
        0 <= x,
        1 < wide < 0x1_0000,
        x + wide < g.area.width,
        0 <= y < g.area.height,
    ensures
        run_from(g, x, y, seq![a, b], seq![wide, w2]).at(x, y) == a,
        run_from(g, x, y, seq![a, b], seq![wide, w2]).at(x + wide, y) == b,
{
    let w = g.area.width as int;
    place_fits(x, y, w, g.area.height as int);
    place_fits(x + wide, y, w, g.area.height as int);
    reveal_with_fuel(run_from, 3);
    assert(seq![a, b].skip(1) =~= seq![b]);
    assert(seq![wide, w2].skip(1) =~= seq![w2]);
    assert(seq![b].skip(1) =~= Seq::<CellModel>::empty());
}

/// The pane on the stage: its machine and its number there, the cells last
/// seen of it, its cursor, whether its program reads the mouse, and since when
/// it has been lost and when it may be opened again.
#[derive(Clone, Debug, PartialEq, Eq)]
pub struct Stage {
    pub wants_mouse: bool,
    pub cursor: Option<(u16, u16)>,
    pub daemon: usize,
    pub pane: PaneId,
    pub buf: Grid,
    pub lost: Option<u64>,
    pub retry_at: Option<u128>,
}

/// What is known of a pane on the stage besides its cells.
#[verifier::ext_equal]
pub struct StageModel {
    pub wants_mouse: bool,
    pub cursor: Option<(u16, u16)>,
    pub daemon: usize,
    pub pane: PaneId,
    pub buf: GridModel,
    pub lost: Option<u64>,
    pub retry_at: Option<u128>,
}

impl View for Stage {
    type V = StageModel;

    open spec fn view(&self) -> StageModel {
        StageModel {
            wants_mouse: self.wants_mouse,
            cursor: self.cursor,
            daemon: self.daemon,
            pane: self.pane,
            buf: self.buf@,
            lost: self.lost,
            retry_at: self.retry_at,
        }
    }
}

/// What is sent to the machine of the pane on the stage.
#[derive(Clone, Copy, Debug, PartialEq, Eq, Structural)]
pub enum StageMsg {
    Watch { pane: PaneId },
    Resize { cols: u16, rows: u16 },
}

/// A pane that has just been put on the stage.
pub open spec fn stage_opened(pane: PaneId, area: Area, daemon: usize) -> StageModel {
    StageModel {
        wants_mouse: false,
        cursor: None,
        daemon,
        pane,
        buf: empty_grid(area),
        lost: None,
        retry_at: None,
    }
}

/// A stage after its connection was lost at `now`: what was seen last stays,
/// the caret goes, and since when it is lost does not change with a second
/// loss.
pub open spec fn stage_lost(s: StageModel, now: u64) -> StageModel {
    StageModel {
        lost: if s.lost is None {
            Some(now)
        } else {
            s.lost
        },
        cursor: if s.lost is None {
            None
        } else {
            s.cursor
        },
        retry_at: if s.retry_at is None {
            Some(now as u128)
        } else {
            s.retry_at
        },
        ..s
    }
}

/// Whether a stage is to be opened again at `now`.
pub open spec fn reopens(s: StageModel, now: u64) -> bool {
    s.lost is Some && (s.retry_at matches Some(t) ==> now >= t)
}

/// A stage after it was asked at `now` whether to open it again.
pub open spec fn stage_asked(s: StageModel, now: u64) -> StageModel {
    if reopens(s, now) {
        StageModel { retry_at: Some((now + STAGE_RETRY) as u128), ..s }
    } else {
        s
    }
}

/// A stage that shows another pane of the same machine.
pub open spec fn stage_watching(s: StageModel, pane: PaneId) -> StageModel {
    if s.pane == pane {
        s
    } else {
        StageModel { pane, buf: empty_grid(s.buf.area), cursor: None, ..s }
    }
}

/// A stage of another size.
pub open spec fn stage_resized(s: StageModel, area: Area) -> StageModel {
    if s.buf.area == area {
        s
    } else {
        StageModel { buf: empty_grid(area), ..s }
    }
}

impl Stage {
    /// Puts a pane on the stage.
    pub fn opened(pane: PaneId, area: Area, daemon: usize) -> (s: Stage)
        ensures
            s@ == stage_opened(pane, area, daemon),
            s@.buf.wf(),
    {
        Stage {
            wants_mouse: false,
            cursor: None,
            daemon,
            pane,
            buf: Grid::empty(area),
            lost: None,
            retry_at: None,
        }
    }

    /// Puts a pane on the stage whose machine cannot be reached.
    pub fn down(pane: PaneId, area: Area, now: u64) -> (s: Stage)
        ensures
            s@ == (StageModel {
                lost: Some(now),
                retry_at: Some((now + STAGE_RETRY) as u128),
                ..stage_opened(pane, area, 0)
            }),
            s@.buf.wf(),
    {
        Stage {
            wants_mouse: false,
            cursor: None,
            daemon: 0,
            pane,
            buf: Grid::empty(area),
            lost: Some(now),
            retry_at: Some(now as u128 + STAGE_RETRY as u128),
        }
    }

    /// Whether anything has been seen of the pane.
    pub fn has_frame(&self) -> (r: bool)
        ensures
            r == seen(self@),
    {
        let mut i: usize = 0;
        while i < self.buf.cells.len()
            invariant
                i <= self.buf.cells@.len(),
                forall|j: int| 0 <= j < i ==> (#[trigger] self@.buf.cells[j]).symbol == " "@,
            decreases self.buf.cells@.len() - i,
        {
            assert(self@.buf.cells[i as int] == self.buf.cells@[i as int]@);
            if !same(self.buf.cells[i].symbol.as_str(), " ") {
                return true;
            }
            i = i + 1;
        }
        false
    }

    /// Notes that the connection was lost.
    pub fn mark_lost(&mut self, now: u64)
        ensures
            final(self)@ == stage_lost(old(self)@, now),
    {
        if self.lost.is_none() {
            self.lost = Some(now);
            self.cursor = None;
        }
        if self.retry_at.is_none() {
            self.retry_at = Some(now as u128);
        }
    }

    /// Whether to open the pane again now; if so, the next attempt is a while
    /// away.
    pub fn reopen_due(&mut self, now: u64) -> (r: bool)
        ensures
            r == reopens(old(self)@, now),
            final(self)@ == stage_asked(old(self)@, now),
    {
        if self.lost.is_none() {
            return false;
        }
        if let Some(t) = self.retry_at {
            if (now as u128) < t {
                return false;
            }
        }
        self.retry_at = Some(now as u128 + STAGE_RETRY as u128);
        true
    }

    /// Shows another pane of the same machine.
    pub fn watch(&mut self, pane: PaneId) -> (r: Option<StageMsg>)
        requires
            old(self)@.buf.wf(),
        ensures
            final(self)@ == stage_watching(old(self)@, pane),
            final(self)@.buf.wf(),
            r == (if old(self)@.pane == pane {
                None
            } else {
                Some(StageMsg::Watch { pane })
            }),
    {
        if self.pane == pane {
            return None;
        }
        self.pane = pane;
        self.buf.reset();
        self.cursor = None;
        Some(StageMsg::Watch { pane })
    }

    /// Gives the pane another size.
    pub fn resize(&mut self, area: Area) -> (r: Option<StageMsg>)
        requires
            old(self)@.buf.wf(),
        ensures
            final(self)@ == stage_resized(old(self)@, area),
            final(self)@.buf.wf(),
            r == (if old(self)@.buf.area == area {
                None
            } else {
                Some(StageMsg::Resize { cols: area.width, rows: area.height })
            }),
    {
        if self.buf.area == area {
            return None;
        }
        self.buf = Grid::empty(area);
        Some(StageMsg::Resize { cols: area.width, rows: area.height })
    }
}

/// A stage that is lost keeps what was last seen of its pane and since when it
/// is lost; a second loss changes nothing, and the caret is gone.
pub proof fn a_dropped_link_keeps_the_last_frame(s: StageModel, now: u64, later: u64)
    requires
        s.lost is None,
    ensures
        stage_lost(s, now).buf == s.buf,
        stage_lost(s, now).cursor is None,
        stage_lost(s, now).lost == Some(now),
        stage_lost(stage_lost(s, now), later) == stage_lost(s, now),
{
}

/// A stage after it was asked some times whether to open it again.
pub open spec fn stage_asked_often(s: StageModel, times: Seq<u64>) -> StageModel
    decreases times.len(),
{
    if times.len() == 0 {
        s
    } else {
        stage_asked(stage_asked_often(s, times.drop_last()), times.last())
    }
}

/// Whether a stage that is asked some times is not to be opened at any of them.
pub open spec fn always_refused(s: StageModel, times: Seq<u64>) -> bool
    decreases times.len(),
{
    times.len() == 0 || (always_refused(s, times.drop_last()) && !reopens(
        stage_asked_often(s, times.drop_last()),
        times.last(),
    ))
}

proof fn a_refusal_changes_nothing(s: StageModel, times: Seq<u64>)
    requires
        always_refused(s, times),
    ensures
        stage_asked_often(s, times) == s,
    decreases times.len(),
{
    if times.len() > 0 {
        a_refusal_changes_nothing(s, times.drop_last());
    }
}

/// A stage that is lost is opened again on a clock: the first attempt is at
/// once, and after an attempt at `now`, however often it is asked meanwhile,
/// the next is due exactly when the wait is over. One that is not due changes
/// nothing, and a stage that is not lost has no attempt due.
pub proof fn a_lost_stage_retries_on_a_clock(
    s: StageModel,
    now: u64,
    meanwhile: Seq<u64>,
    later: u64,
)
    ensures
        s.lost is None ==> !reopens(s, now) && stage_asked(s, now) == s,
        s.lost is None && s.retry_at is None ==> reopens(stage_lost(s, now), now),
        reopens(s, now) && always_refused(stage_asked(s, now), meanwhile) ==> {
            let asked = stage_asked_often(stage_asked(s, now), meanwhile);
            &&& reopens(asked, later) <==> later >= now + STAGE_RETRY
            &&& !reopens(asked, later) ==> stage_asked(asked, later) == asked
        },
{
    if reopens(s, now) && always_refused(stage_asked(s, now), meanwhile) {
        a_refusal_changes_nothing(stage_asked(s, now), meanwhile);
    }
}

/// Where the caret goes, on a pane drawn at `at`: where the pane's cursor is,
/// unless a box has the keyboard, no pane is drawn, the cursor is hidden, or
/// it lies outside what is drawn.
pub open spec fn caret(
    v: BenchModel,
    cursor: Option<(u16, u16)>,
    drawn: Option<Area>,
    at: Area,
) -> Option<(u16, u16)> {
    match (v.overlay, drawn, cursor) {
        (None, Some(pane), Some((cx, cy))) => if cx < at.width && cx < pane.width && cy < at.height
            && cy < pane.height {
            Some(((at.x + cx) as u16, (at.y + cy) as u16))
        } else {
            None
        },
        _ => None,
    }
}

/// Where the caret goes. `drawn` is the pane, where the page draws one.
pub fn stage_caret(view: &Bench, stage: Option<&Stage>, drawn: Option<&Grid>, at: Area) -> (r: Option<
    (u16, u16),
>)
    requires
        at.x + at.width <= u16::MAX,
        at.y + at.height <= u16::MAX,
    ensures
        r == caret(
            view@,
            match stage {
                Some(s) => s@.cursor,
                None => None,
            },
            match drawn {
                Some(g) => Some(g@.area),
                None => None,
            },
            at,
        ),
{
    if view.overlay.is_some() {
        return None;
    }
    match (stage, drawn) {
        (Some(s), Some(pane)) => match s.cursor {
            Some((cx, cy)) => {
                if cx >= at.width || cx >= pane.area.width || cy >= at.height || cy
                    >= pane.area.height {
                    None
                } else {
                    Some((at.x + cx, at.y + cy))
                }
            },
            None => None,
        },
        _ => None,
    }
}

/// What becomes of the stage when the view is drawn.
#[derive(Clone, Copy, Debug, PartialEq, Eq, Structural)]
pub enum StageAct {
    /// The stage shows what it should; these are to be sent.
    Follow { resize: Option<StageMsg>, watch: Option<StageMsg> },
    /// The connection is lost, and is to be opened again now.
    Reopen { daemon: usize, pane: PaneId },
    /// The connection is lost, and it is too early to open it again.
    Wait,
    /// Another machine's pane is to be put on the stage.
    Open { daemon: usize, pane: PaneId },
    /// There is nothing to show.
    Close,
}

/// What becomes of a stage that should show `want`, and what is to be done.
pub open spec fn followed(want: Option<(usize, PaneId)>, stage: Option<StageModel>, area: Area, now: u64) -> (
    Option<StageModel>,
    StageAct,
) {
    match (want, stage) {
        (Some((d, pane)), Some(s)) => if s.daemon != d {
            (stage, StageAct::Open { daemon: d, pane })
        } else if s.lost is None {
            (
                Some(stage_watching(stage_resized(s, area), pane)),
                StageAct::Follow {
                    resize: if s.buf.area == area {
                        None
                    } else {
                        Some(StageMsg::Resize { cols: area.width, rows: area.height })
                    },
                    watch: if s.pane == pane {
                        None
                    } else {
                        Some(StageMsg::Watch { pane })
                    },
                },
            )
        } else {
            (
                Some(stage_asked(s, now)),
                if reopens(s, now) {
                    StageAct::Reopen { daemon: d, pane }
                } else {
                    StageAct::Wait
                },
            )
        },
        (Some((d, pane)), None) => (None, StageAct::Open { daemon: d, pane }),
        (None, _) => (None, StageAct::Close),
    }
}

/// What an optional stage is.
pub open spec fn opt_stage(s: Option<Stage>) -> Option<StageModel> {
    match s {
        Some(s) => Some(s@),
        None => None,
    }
}

/// Has the stage show what it should: the same connection where it is to the
/// same machine, another where it is not, and nothing where there is nothing.
pub fn follow_stage(want: Option<(usize, PaneId)>, stage: &mut Option<Stage>, area: Area, now: u64) -> (
    r: StageAct)
    requires
        *old(stage) matches Some(s) ==> s@.buf.wf(),
    ensures
        (opt_stage(*final(stage)), r) == followed(want, opt_stage(*old(stage)), area, now),
        *final(stage) matches Some(s) ==> s@.buf.wf(),
{
    match want {
        Some((d, pane)) => {
            let open = stage.take();
            match open {
                Some(mut s) => {
                    let act = if s.daemon != d {
                        StageAct::Open { daemon: d, pane }
                    } else if s.lost.is_none() {
                        let resize = s.resize(area);
                        let watch = s.watch(pane);
                        StageAct::Follow { resize, watch }
                    } else if s.reopen_due(now) {
                        StageAct::Reopen { daemon: d, pane }
                    } else {
                        StageAct::Wait
                    };
                    *stage = Some(s);
                    act
                },
                None => StageAct::Open { daemon: d, pane },
            }
        },
        None => {
            *stage = None;
            StageAct::Close
        },
    }
}

/// What a daemon says of itself where it is not the client's own build.
pub open spec fn skew(server: Option<Seq<char>>, mine: Seq<char>) -> Option<Seq<char>> {
    match server {
        Some(theirs) => if theirs == mine {
            None
        } else {
            Some(
                "daemon is "@ + theirs + ", client is "@ + mine
                    + " — restart it: butai kill-server"@,
            )
        },
        None => Some(
            "daemon predates this client ("@ + mine + ") — restart it: butai kill-server"@,
        ),
    }
}

/// What to say of a daemon that is not the client's own build, and nothing
/// where it is.
pub fn skew_notice(server_version: Option<&str>, mine: &str) -> (r: Option<String>)
    ensures
        crate::text::opt_text(r) == skew(
            match server_version {
                Some(v) => Some(v@),
                None => None,
            },
            mine@,
        ),
{
    match server_version {
        Some(theirs) => if same(theirs, mine) {
            None
        } else {
            Some(
                cat5(
                    "daemon is ",
                    theirs,
                    ", client is ",
                    mine,
                    " — restart it: butai kill-server",
                ),
            )
        },
        None => Some(
            cat3(
                "daemon predates this client (",
                mine,
                ") — restart it: butai kill-server",
            ),
        ),
    }
}

/// Something that came from the machine of the pane on the stage. `End` is the
/// end of the connection without a word.
#[derive(Clone, Debug, PartialEq, Eq)]
pub enum StageEvent {
    Frame(Frame),
    Bell,
    Error(String),
    Detached { shutdown: bool },
    End,
    Hello { server_version: Option<String> },
    Other,
}

/// What is to be done after something came from the machine of the pane.
#[derive(Clone, Copy, Debug, PartialEq, Eq, Structural)]
pub struct AfterEvent {
    pub ring: bool,
    pub dirty: bool,
}

/// A stage after a frame came.
pub open spec fn stage_framed(s: StageModel, frame: Frame) -> StageModel {
    StageModel {
        wants_mouse: frame.wants_mouse,
        cursor: frame.cursor,
        buf: frame_applied(s.buf, frame),
        ..s
    }
}

/// What something from the machine of the pane does. A pane that ended leaves
/// the stage empty; a machine that went away leaves the last frame on it.
pub open spec fn stage_heard(ev: StageEvent, stage: Option<StageModel>, v: BenchModel, mine: Seq<char>, now: u64) -> (
    Option<StageModel>,
    BenchModel,
    AfterEvent,
) {
    let drawn = AfterEvent { ring: false, dirty: true };
    let lost = match stage {
        Some(s) => Some(stage_lost(s, now)),
        None => None,
    };
    match ev {
        StageEvent::Frame(frame) => (
            match stage {
                Some(s) => Some(stage_framed(s, frame)),
                None => None,
            },
            v,
            drawn,
        ),
        StageEvent::Bell => (stage, v, AfterEvent { ring: true, dirty: false }),
        StageEvent::Error(e) => (stage, BenchOf { flash: Some(e@), ..v }, drawn),
        StageEvent::Detached { shutdown } => if shutdown {
            (lost, v, drawn)
        } else {
            (None, v, drawn)
        },
        StageEvent::End => (lost, v, drawn),
        StageEvent::Hello { server_version } => match skew(
            crate::text::opt_text(server_version),
            mine,
        ) {
            Some(notice) => (stage, BenchOf { flash: Some(notice), ..v }, drawn),
            None => (stage, v, AfterEvent { ring: false, dirty: false }),
        },
        StageEvent::Other => (stage, v, AfterEvent { ring: false, dirty: false }),
    }
}

/// Takes in something from the machine of the pane on the stage.
pub fn stage_event(ev: StageEvent, stage: &mut Option<Stage>, view: &mut Bench, mine: &str, now: u64) -> (
    r: AfterEvent)
    requires
        *old(stage) matches Some(s) ==> s@.buf.wf(),
    ensures
        (opt_stage(*final(stage)), final(view)@, r) == stage_heard(
            ev,
            opt_stage(*old(stage)),
            old(view)@,
            mine@,
            now,
        ),
        *final(stage) matches Some(s) ==> s@.buf.wf(),
{
    let drawn = AfterEvent { ring: false, dirty: true };
    match ev {
        StageEvent::Frame(frame) => {
            let open = stage.take();
            if let Some(mut s) = open {
                s.wants_mouse = frame.wants_mouse;
                s.cursor = frame.cursor;
                apply_frame(&mut s.buf, &frame);
                *stage = Some(s);
            }
            drawn
        },
        StageEvent::Bell => AfterEvent { ring: true, dirty: false },
        StageEvent::Error(e) => {
            view.flash = Some(e);
            drawn
        },
        StageEvent::Detached { shutdown: false } => {
            *stage = None;
            drawn
        },
        StageEvent::Detached { shutdown: true } | StageEvent::End => {
            let open = stage.take();
            if let Some(mut s) = open {
                s.mark_lost(now);
                *stage = Some(s);
            }
            drawn
        },
        StageEvent::Hello { server_version } => {
            let notice = match &server_version {
                Some(v) => skew_notice(Some(v.as_str()), mine),
                None => skew_notice(None, mine),
            };
            match notice {
                Some(n) => {
                    view.flash = Some(n);
                    drawn
                },
                None => AfterEvent { ring: false, dirty: false },
            }
        },
        StageEvent::Other => AfterEvent { ring: false, dirty: false },
    }
}

/// What is said over a stage that is lost: of which machine, for how many
/// seconds, and whether there is anything under it to see.
#[verifier::ext_equal]
#[derive(Clone, Debug, PartialEq, Eq)]
pub struct StageDownOf<S> {
    pub host: Option<S>,
    pub secs: u64,
    pub has_frame: bool,
}

pub type StageDown = StageDownOf<String>;

/// Whether anything has been seen of a pane.
pub open spec fn seen(s: StageModel) -> bool {
    exists|i: int| 0 <= i < s.buf.cells.len() && (#[trigger] s.buf.cells[i]).symbol != " "@
}

/// How many seconds ago something was.
pub open spec fn seconds_since(then: u64, now: u64) -> u64 {
    if now > then {
        (now - then) as u64 / 1_000
    } else {
        0
    }
}

/// What is said over a stage that is lost.
pub open spec fn down_notice(s: StageModel, hosts: Seq<Option<String>>, now: u64) -> Option<
    StageDownOf<Seq<char>>,
> {
    match s.lost {
        Some(since) => Some(
            StageDownOf {
                host: if s.daemon < hosts.len() {
                    crate::text::opt_text(hosts[s.daemon as int])
                } else {
                    None
                },
                secs: seconds_since(since, now),
                has_frame: seen(s),
            },
        ),
        None => None,
    }
}

/// What is said over a stage that is lost.
pub fn stage_down(s: &Stage, hosts: &Vec<Option<String>>, now: u64) -> (r: Option<StageDown>)
    ensures
        (match r {
            Some(n) => Some(
                StageDownOf {
                    host: crate::text::opt_text(n.host),
                    secs: n.secs,
                    has_frame: n.has_frame,
                },
            ),
            None => None,
        }) == down_notice(s@, hosts@, now),
{
    match s.lost {
        Some(since) => {
            let host = if s.daemon < hosts.len() {
                crate::text::clone_opt(&hosts[s.daemon])
            } else {
                None
            };
            let secs: u64 = if now > since {
                (now - since) / 1_000
            } else {
                0
            };
            Some(StageDownOf { host, secs, has_frame: s.has_frame() })
        },
        None => None,
    }
}

/// The age on the notice counts from the drop: attempts in between and a second
/// loss do not start it again.
pub proof fn the_age_counts_from_the_drop(
    s: StageModel,
    hosts: Seq<Option<String>>,
    drop: u64,
    tried: u64,
    again: u64,
    now: u64,
)
    requires
        s.lost is None,
    ensures
        ({
            let lost = stage_lost(s, drop);
            let later = stage_lost(stage_asked(lost, tried), again);
            down_notice(later, hosts, now) == down_notice(lost, hosts, now) && down_notice(
                lost,
                hosts,
                now,
            )->0.secs == seconds_since(drop, now)
        }),
{
}

/// A frame is what its pane looks like: the cursor and the wish for the mouse are
/// the frame's own. It is heard on the pane and the machine that the stage was
/// opened on, the screen is drawn again, and nothing is said.
pub proof fn a_frame_is_what_the_pane_reports(
    frame: Frame,
    s: StageModel,
    v: BenchModel,
    mine: Seq<char>,
    now: u64,
)
    ensures
        ({
            let (stage, view, after) = stage_heard(StageEvent::Frame(frame), Some(s), v, mine, now);
            &&& stage is Some
            &&& stage->0.cursor == frame.cursor
            &&& stage->0.wants_mouse == frame.wants_mouse
            &&& stage->0.pane == s.pane
            &&& stage->0.daemon == s.daemon
            &&& stage->0.lost == s.lost
            &&& stage->0.retry_at == s.retry_at
            &&& view == v
            &&& after.dirty && !after.ring
        }),
{
}

proof fn a_run_puts_its_cells(
    g: GridModel,
    x: int,
    y: int,
    cells: Seq<CellModel>,
    widths: Seq<usize>,
    k: int,
)
    requires
        g.wf(),
        0 <= x,
        0 <= y < g.area.height,
        0 <= k < cells.len(),
        widths.len() == cells.len(),
        x + k < g.area.width,
        forall|j: int| 0 <= j < k ==> #[trigger] widths[j] <= 1,
        widths[k] < 0x1_0000,
    ensures
        run_from(g, x, y, cells, widths).at(x + k, y) == cells[k],
    decreases cells.len(),
{
    let w = g.area.width as int;
    let next = GridOf { cells: g.cells.update(y * w + x, cells[0]), ..g };
    place_fits(x, y, w, g.area.height as int);
    if k == 0 {
        run_keeps_rows(next, x + advance(widths[0]), y, cells.skip(1), widths.skip(1), x, y);
    } else {
        assert(widths[0] <= 1);
        assert forall|j: int| 0 <= j < k - 1 implies #[trigger] widths.skip(1)[j] <= 1 by {
            assert(widths[j + 1] <= 1);
        }
        a_run_puts_its_cells(next, x + 1, y, cells.skip(1), widths.skip(1), k - 1);
    }
}

proof fn the_last_runs_keep_a_row(g: GridModel, runs: Seq<CellRun>, n: int, x: int, y: int)
    requires
        g.wf(),
        0 <= n <= runs.len(),
        0 <= x < g.area.width,
        0 <= y < g.area.height,
        forall|i: int| n <= i < runs.len() ==> (#[trigger] runs[i]).y != y,
    ensures
        runs_applied(g, runs.take(n)).wf(),
        runs_applied(g, runs.take(n)).area == g.area,
        runs_applied(g, runs).at(x, y) == runs_applied(g, runs.take(n)).at(x, y),
        runs_applied(g, runs).wf(),
        runs_applied(g, runs).area == g.area,
    decreases runs.len(),
{
    if runs.len() == 0 {
        assert(runs.take(n) =~= runs);
    } else {
        let before = runs.drop_last();
        let run = runs.last();
        let drawn = Seq::new(run.cells@.len(), |i: int| columns(run.cells@[i].symbol@));
        if n == runs.len() {
            assert(runs.take(n) =~= runs);
            the_last_runs_keep_a_row(g, before, before.len() as int, x, y);
            assert(before.take(before.len() as int) =~= before);
            let r = runs_applied(g, before);
            run_keeps_area(r, run.x as int, run.y as int, cells_model(run.cells@), drawn);
        } else {
            assert forall|i: int| n <= i < before.len() implies (#[trigger] before[i]).y != y by {
                assert(before[i] == runs[i]);
            }
            the_last_runs_keep_a_row(g, before, n, x, y);
            assert(before.take(n) =~= runs.take(n));
            assert(runs[runs.len() - 1].y != y);
            run_keeps_rows(
                runs_applied(g, before),
                run.x as int,
                run.y as int,
                cells_model(run.cells@),
                drawn,
                x,
                y,
            );
        }
    }
}

proof fn run_keeps_area(g: GridModel, x: int, y: int, cells: Seq<CellModel>, widths: Seq<usize>)
    requires
        g.wf(),
        0 <= x,
        0 <= y,
    ensures
        run_from(g, x, y, cells, widths).wf(),
        run_from(g, x, y, cells, widths).area == g.area,
    decreases cells.len(),
{
    if cells.len() > 0 && widths.len() > 0 && x < g.area.width && y < g.area.height {
        let w = g.area.width as int;
        place_fits(x, y, w, g.area.height as int);
        let next = GridOf { cells: g.cells.update(y * w + x, cells[0]), ..g };
        run_keeps_area(next, x + advance(widths[0]), y, cells.skip(1), widths.skip(1));
    }
}

/// What a run of a frame says of a place is what the place shows, as it was sent:
/// symbol, colors and setting. The cells of a run stand side by side while each
/// takes up no more than a column, and a later run on another row does not reach
/// them.
pub proof fn a_frame_shows_its_cells(g: GridModel, frame: Frame, n: int, k: int)
    requires
        g.wf(),
        0 <= n < frame.runs@.len(),
        0 <= k < frame.runs@[n].cells@.len(),
        frame.runs@[n].x + k < g.area.width,
        frame.runs@[n].y < g.area.height,
        forall|i: int|
            n < i < frame.runs@.len() ==> (#[trigger] frame.runs@[i]).y != frame.runs@[n].y,
    ensures
        ({
            let run = frame.runs@[n];
            let cell = frame_applied(g, frame).at(run.x + k, run.y as int);
            (forall|j: int| 0 <= j < k ==> columns((#[trigger] run.cells@[j]).symbol@) <= 1)
                && columns(run.cells@[k].symbol@) < 0x1_0000 ==> {
                &&& cell.symbol == run.cells@[k].symbol@
                &&& cell.fg == run.cells@[k].fg
                &&& cell.bg == run.cells@[k].bg
                &&& cell.mods == run.cells@[k].mods
            }
        }),
{
    area_fits(g.area);
    let start = if frame.full {
        empty_grid(g.area)
    } else {
        g
    };
    let runs = frame.runs@;
    let run = runs[n];
    let cells = cells_model(run.cells@);
    let widths = Seq::new(run.cells@.len(), |i: int| columns(run.cells@[i].symbol@));
    if (forall|j: int| 0 <= j < k ==> columns((#[trigger] run.cells@[j]).symbol@) <= 1) && columns(
        run.cells@[k].symbol@,
    ) < 0x1_0000 {
        the_last_runs_keep_a_row(start, runs, n + 1, run.x + k, run.y as int);
        assert(runs.take(n + 1).drop_last() =~= runs.take(n));
        the_last_runs_keep_a_row(start, runs.take(n), n, run.x + k, run.y as int);
        assert(runs.take(n).take(n) =~= runs.take(n));
        assert forall|j: int| 0 <= j < k implies #[trigger] widths[j] <= 1 by {
            assert(columns(run.cells@[j].symbol@) <= 1);
        }
        a_run_puts_its_cells(
            runs_applied(start, runs.take(n)),
            run.x as int,
            run.y as int,
            cells,
            widths,
            k,
        );
    }
}

/// A stage that is opened shows the pane it was opened on, on its machine, and
/// nothing yet: every cell is a plain space and there is no caret. It is not lost.
pub proof fn an_opened_stage_is_blank(pane: PaneId, area: Area, daemon: usize, x: int, y: int)
    requires
        0 <= x < area.width,
        0 <= y < area.height,
    ensures
        ({
            let s = stage_opened(pane, area, daemon);
            let cell = s.buf.at(x, y);
            &&& s.pane == pane
            &&& s.daemon == daemon
            &&& s.buf.area == area
            &&& s.cursor is None
            &&& !s.wants_mouse
            &&& s.lost is None
            &&& s.retry_at is None
            &&& cell.symbol == " "@
            &&& cell.fg is Default
            &&& cell.bg is Default
            &&& !cell.mods.bold && !cell.mods.italic && !cell.mods.underline
            &&& !cell.mods.reverse && !cell.mods.dim && !cell.mods.crossed_out
        }),
{
    area_fits(area);
    place_fits(x, y, area.width as int, area.height as int);
}

/// A pane that ended leaves the stage empty. A machine that goes away, in so many
/// words or without one, leaves what was last seen of the pane on the stage, and
/// since when it is gone.
pub proof fn an_ended_pane_goes_and_a_lost_one_stays(
    s: StageModel,
    v: BenchModel,
    mine: Seq<char>,
    now: u64,
)
    requires
        s.lost is None,
    ensures
        ({
            let ended = stage_heard(StageEvent::Detached { shutdown: false }, Some(s), v, mine, now);
            let down = stage_heard(StageEvent::Detached { shutdown: true }, Some(s), v, mine, now);
            let cut = stage_heard(StageEvent::End, Some(s), v, mine, now);
            &&& ended.0 is None
            &&& ended.1 == v
            &&& ended.2.dirty && !ended.2.ring
            &&& cut == down
            &&& down.0 is Some
            &&& down.0->0.buf == s.buf
            &&& down.0->0.pane == s.pane
            &&& down.0->0.daemon == s.daemon
            &&& down.0->0.cursor is None
            &&& down.0->0.lost == Some(now)
            &&& s.retry_at is None ==> down.0->0.retry_at == Some(now as u128)
            &&& down.1 == v
            &&& down.2.dirty && !down.2.ring
        }),
{
}

/// A bell is rung and changes nothing; an error of the machine is said in its own
/// words and leaves the stage alone; what is none of these is passed over.
pub proof fn a_bell_rings_and_an_error_is_said(
    e: String,
    stage: Option<StageModel>,
    v: BenchModel,
    mine: Seq<char>,
    now: u64,
)
    ensures
        ({
            let bell = stage_heard(StageEvent::Bell, stage, v, mine, now);
            let error = stage_heard(StageEvent::Error(e), stage, v, mine, now);
            let other = stage_heard(StageEvent::Other, stage, v, mine, now);
            &&& bell.0 == stage && bell.1 == v
            &&& bell.2.ring && !bell.2.dirty
            &&& error.0 == stage
            &&& error.1 == (BenchOf { flash: Some(e@), ..v })
            &&& error.2.dirty && !error.2.ring
            &&& other.0 == stage && other.1 == v
            &&& !other.2.ring && !other.2.dirty
        }),
{
}

/// A daemon of this build is greeted in silence; of another, both builds are
/// named, and one that names none is said to be older. Nothing else changes.
pub proof fn another_build_is_named(
    theirs: String,
    stage: Option<StageModel>,
    v: BenchModel,
    mine: Seq<char>,
    now: u64,
)
    ensures
        ({
            let hello = |version: Option<String>|
                stage_heard(StageEvent::Hello { server_version: version }, stage, v, mine, now);
            let (same, named, silent) = (hello(Some(theirs)), hello(Some(theirs)), hello(None));
            &&& theirs@ == mine ==> same.0 == stage && same.1 == v && !same.2.dirty && !same.2.ring
            &&& theirs@ != mine ==> named.0 == stage && named.1 == (BenchOf {
                flash: Some(
                    "daemon is "@ + theirs@ + ", client is "@ + mine
                        + " — restart it: butai kill-server"@,
                ),
                ..v
            }) && named.2.dirty && !named.2.ring
            &&& silent.0 == stage
            &&& silent.1 == (BenchOf {
                flash: Some(
                    "daemon predates this client ("@ + mine + ") — restart it: butai kill-server"@,
                ),
                ..v
            })
            &&& silent.2.dirty && !silent.2.ring
        }),
{
}

/// The caret stands on the cell of the pane's cursor, where that cell is on the
/// screen; it is hidden where a box has the keyboard, where no pane is drawn and
/// where the program hides its cursor.
pub proof fn the_caret_is_where_the_program_put_it(
    v: BenchModel,
    cx: u16,
    cy: u16,
    pane: Area,
    at: Area,
)
    requires
        at.x + at.width <= u16::MAX,
        at.y + at.height <= u16::MAX,
    ensures
        v.overlay is None && cx < at.width && cx < pane.width && cy < at.height && cy < pane.height
            ==> caret(v, Some((cx, cy)), Some(pane), at) == Some(
            ((at.x + cx) as u16, (at.y + cy) as u16),
        ),
        cx >= at.width || cx >= pane.width || cy >= at.height || cy >= pane.height ==> caret(
            v,
            Some((cx, cy)),
            Some(pane),
            at,
        ) is None,
        v.overlay is Some ==> caret(v, Some((cx, cy)), Some(pane), at) is None,
        caret(v, None, Some(pane), at) is None,
        caret(v, Some((cx, cy)), None, at) is None,
{
}

/// The stage follows what it should show. On the machine it is connected to, it is
/// told of another size and of another pane, and only where there is another;
/// what it then shows is that pane at that size, blank and without a caret where
/// anything changed. On another machine, or with no stage yet, one is opened
/// there. With nothing to show it is closed.
pub proof fn the_stage_follows_what_it_should_show(
    d: usize,
    pane: PaneId,
    s: StageModel,
    area: Area,
    now: u64,
)
    ensures
        ({
            let (stage, act) = followed(Some((d, pane)), Some(s), area, now);
            &&& s.daemon == d && s.lost is None ==> {
                &&& act matches StageAct::Follow { resize, watch } && resize == (if s.buf.area
                    == area {
                    None
                } else {
                    Some(StageMsg::Resize { cols: area.width, rows: area.height })
                }) && watch == (if s.pane == pane {
                    None
                } else {
                    Some(StageMsg::Watch { pane })
                })
                &&& stage is Some
                &&& stage->0.pane == pane
                &&& stage->0.daemon == d
                &&& stage->0.lost is None
                &&& stage->0.buf.area == area
                &&& s.buf.area == area && s.pane == pane ==> stage->0 == s
                &&& s.buf.area != area || s.pane != pane ==> forall|i: int|
                    0 <= i < stage->0.buf.cells.len() ==> (#[trigger] stage->0.buf.cells[i])
                        == (CellOf {
                        symbol: " "@,
                        fg: Color::Default,
                        bg: Color::Default,
                        mods: no_mods(),
                    })
                &&& s.pane != pane ==> stage->0.cursor is None
                &&& s.pane == pane ==> stage->0.cursor == s.cursor
            }
            &&& s.daemon != d ==> act == (StageAct::Open { daemon: d, pane }) && stage == Some(s)
            &&& s.daemon == d && s.lost is Some ==> stage is Some && stage->0.buf == s.buf && act
                == (if s.retry_at is None || now >= s.retry_at->0 {
                StageAct::Reopen { daemon: d, pane }
            } else {
                StageAct::Wait
            })
            &&& s.daemon == d && s.lost is Some && act is Reopen ==> stage->0.retry_at == Some(
                (now + 1_000) as u128,
            ) && stage->0.lost == s.lost
            &&& s.daemon == d && act is Wait ==> stage == Some(s)
        }),
        followed(Some((d, pane)), None, area, now) == (
            None::<StageModel>,
            StageAct::Open { daemon: d, pane },
        ),
        followed(None, Some(s), area, now) == (None::<StageModel>, StageAct::Close),
        followed(None, None, area, now) == (None::<StageModel>, StageAct::Close),
{
}

/// The notice over a lost stage names the machine of the stage, counts whole
/// seconds since the loss, and says whether any cell of the pane was seen; a
/// stage that is not lost has none.
pub proof fn the_notice_names_the_lost_machine(
    s: StageModel,
    hosts: Seq<Option<String>>,
    since: u64,
    now: u64,
)
    ensures
        s.lost is None ==> down_notice(s, hosts, now) is None,
        s.lost == Some(since) ==> {
            &&& down_notice(s, hosts, now) is Some
            &&& s.daemon < hosts.len() && hosts[s.daemon as int] is Some ==> down_notice(
                s,
                hosts,
                now,
            )->0.host == Some(hosts[s.daemon as int]->0@)
            &&& s.daemon < hosts.len() && hosts[s.daemon as int] is None ==> down_notice(
                s,
                hosts,
                now,
            )->0.host is None
            &&& s.daemon >= hosts.len() ==> down_notice(s, hosts, now)->0.host is None
            &&& since <= now ==> down_notice(s, hosts, now)->0.secs * 1_000 <= now - since < (
            down_notice(s, hosts, now)->0.secs + 1) * 1_000
            &&& now < since ==> down_notice(s, hosts, now)->0.secs == 0
            &&& down_notice(s, hosts, now)->0.has_frame <==> exists|i: int|
                0 <= i < s.buf.cells.len() && (#[trigger] s.buf.cells[i]).symbol != " "@
        },
{
}

} // verus!
