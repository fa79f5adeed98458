//! Which cells of a screen are written to the terminal: those that it does not
//! show yet.
use ratatui::buffer::Buffer;
use ratatui::layout::Rect;
use ratatui::style::{Color, Modifier};
use vstd::arithmetic::div_mod::lemma_fundamental_div_mod;
use vstd::arithmetic::mul::lemma_mul_inequality;
use vstd::prelude::*;

use crate::screen::{
    all_written, ops_model, screen_cells, write_cells, ScreenCell, ScreenCellModel, ScreenCellOf,
    Shade, Style, TermOp, TermOpModel,
};
use crate::stage::{columns, no_mods, Mods};

verus! {

/// What a cell of the screen shows, and how.
#[verifier::ext_equal]
#[derive(Clone, Debug, PartialEq, Eq)]
pub struct DrawnOf<S> {
    pub symbol: S,
    pub style: Style,
}

pub type Drawn = DrawnOf<String>;

pub type DrawnModel = DrawnOf<Seq<char>>;

impl View for DrawnOf<String> {
    type V = DrawnOf<Seq<char>>;

    open spec fn view(&self) -> DrawnOf<Seq<char>> {
        DrawnOf { symbol: self.symbol@, style: self.style }
    }
}

/// What some cells show.
pub open spec fn drawn_model(v: Seq<Drawn>) -> Seq<DrawnModel> {
    Seq::new(v.len(), |i: int| v[i]@)
}

/// A screen, row by row from the top.
#[verifier::ext_equal]
#[derive(Clone, Debug, PartialEq, Eq)]
pub struct ScreenOf<C> {
    pub cols: u16,
    pub rows: u16,
    pub cells: C,
}

pub type Screen = ScreenOf<Vec<Drawn>>;

pub type ScreenModel = ScreenOf<Seq<DrawnModel>>;

impl View for ScreenOf<Vec<Drawn>> {
    type V = ScreenModel;

    open spec fn view(&self) -> ScreenModel {
        ScreenOf { cols: self.cols, rows: self.rows, cells: drawn_model(self.cells@) }
    }
}

impl ScreenOf<Seq<DrawnModel>> {
    /// Whether there is a cell for every place of the screen.
    pub open spec fn wf(self) -> bool {
        self.cells.len() == self.cols * self.rows
    }
}

/// The style of a cell that nothing has been drawn on.
pub open spec fn bare() -> Style {
    Style { fg: Shade::Reset, bg: Shade::Reset, mods: no_mods() }
}

/// A screen that nothing has been drawn on.
pub open spec fn blank(cols: u16, rows: u16) -> ScreenModel {
    ScreenOf {
        cols,
        rows,
        cells: Seq::new((cols * rows) as nat, |i: int| DrawnOf { symbol: " "@, style: bare() }),
    }
}

/// A screen that nothing has been drawn on.
pub fn blank_screen(cols: u16, rows: u16) -> (s: Screen)
    ensures
        s@ == blank(cols, rows),
        s@.wf(),
{
    let mods = Mods {
        bold: false,
        italic: false,
        underline: false,
        reverse: false,
        dim: false,
        crossed_out: false,
    };
    let style = Style { fg: Shade::Reset, bg: Shade::Reset, mods };
    proof {
        lemma_mul_inequality(cols as int, 0xffff, rows as int);
    }
    let count: u32 = cols as u32 * rows as u32;
    let mut cells: Vec<Drawn> = Vec::new();
    let mut n: u32 = 0;
    while n < count
        invariant
            n <= count,
            cells@.len() == n,
            style == bare(),
            forall|i: int|
                0 <= i < n ==> (#[trigger] cells@[i])@ == (DrawnOf { symbol: " "@, style: bare() }),
        decreases count - n,
    {
        cells.push(DrawnOf { symbol: " ".to_owned(), style });
        n = n + 1;
    }
    let s = ScreenOf { cols, rows, cells };
    assert(s@.cells =~= blank(cols, rows).cells);
    s
}

/// How wide some symbols are.
pub open spec fn widths(cells: Seq<DrawnModel>) -> Seq<usize> {
    Seq::new(cells.len(), |i: int| columns(cells[i].symbol))
}

/// Whether no symbol of some cells takes up more columns than `n`.
pub open spec fn no_wider_than(n: int, cells: Seq<DrawnModel>) -> bool {
    forall|j: int| 0 <= j < cells.len() ==> columns((#[trigger] cells[j]).symbol) <= n
}

/// How many columns the symbol at a place takes up, before or after.
pub open spec fn widest(was: Seq<usize>, now: Seq<usize>, j: int) -> int {
    if was[j] > now[j] {
        was[j] as int
    } else {
        now[j] as int
    }
}

/// Whether a symbol before a place reaches over it, or did.
pub open spec fn reached_over(was: Seq<usize>, now: Seq<usize>, i: int) -> bool {
    exists|j: int| 0 <= j < i && i < j + #[trigger] widest(was, now, j)
}

/// Whether the cell at a place is to be written: it is not what it was, or
/// something that reaches over it may have been drawn across it. The one behind
/// a wide symbol is not, as the symbol itself fills it. `was` and `now` are how
/// wide the symbols were and are.
pub open spec fn is_stale<C>(
    old: Seq<C>,
    new: Seq<C>,
    was: Seq<usize>,
    now: Seq<usize>,
    i: int,
) -> bool {
    (i == 0 || now[i - 1] <= 1) && (new[i] != old[i] || reached_over(was, now, i))
}

/// The places among the first `n` whose cells are to be written, in order.
pub open spec fn stale<C>(
    old: Seq<C>,
    new: Seq<C>,
    was: Seq<usize>,
    now: Seq<usize>,
    n: int,
) -> Seq<int>
    decreases n,
{
    if n <= 0 {
        Seq::empty()
    } else if is_stale(old, new, was, now, n - 1) {
        stale(old, new, was, now, n - 1).push(n - 1)
    } else {
        stale(old, new, was, now, n - 1)
    }
}

proof fn stale_places<C>(old: Seq<C>, new: Seq<C>, was: Seq<usize>, now: Seq<usize>, n: int)
    requires
        0 <= n,
    ensures
        forall|i: int| #[trigger]
            stale(old, new, was, now, n).contains(i) <==> 0 <= i < n && is_stale(
                old,
                new,
                was,
                now,
                i,
            ),
        forall|k: int|
            0 <= k < stale(old, new, was, now, n).len() ==> 0 <= #[trigger] stale(
                old,
                new,
                was,
                now,
                n,
            )[k] < n,
        forall|k: int, l: int|
            0 <= k < l < stale(old, new, was, now, n).len() ==> #[trigger] stale(
                old,
                new,
                was,
                now,
                n,
            )[k] < #[trigger] stale(old, new, was, now, n)[l],
    decreases n,
{
    if n > 0 {
        stale_places(old, new, was, now, n - 1);
        let before = stale(old, new, was, now, n - 1);
        let all = stale(old, new, was, now, n);
        assert forall|i: int| #[trigger]
            all.contains(i) <==> 0 <= i < n && is_stale(old, new, was, now, i) by {
            if is_stale(old, new, was, now, n - 1) {
                assert(all[all.len() - 1] == n - 1);
                if before.contains(i) {
                    let k = choose|k: int| 0 <= k < before.len() && before[k] == i;
                    assert(all[k] == i);
                }
                if all.contains(i) && i != n - 1 {
                    let k = choose|k: int| 0 <= k < all.len() && all[k] == i;
                    assert(before[k] == i);
                }
            }
            assert(before.contains(i) <==> 0 <= i < n - 1 && is_stale(old, new, was, now, i));
        }
    }
}

/// The column and the row that a place is counted at: sixteen bits of it.
pub open spec fn place(i: int, cols: u16) -> (u16, u16) {
    (((i % 0x1_0000) % cols as int) as u16, ((i % 0x1_0000) / cols as int) as u16)
}

/// A cell as it is compared: its symbol, the numbers of its two colors, what
/// kinds of color they are and how its text is set, and which run of 65,536
/// cells it stands in.
#[verifier::ext_equal]
#[derive(Debug)]
pub struct TokenOf<S> {
    pub symbol: S,
    pub fg: (u8, u8, u8),
    pub bg: (u8, u8, u8),
    pub kinds: (u8, u8, u8),
    pub part: u16,
}

pub type Token = TokenOf<String>;

pub type TokenModel = TokenOf<Seq<char>>;

impl View for TokenOf<String> {
    type V = TokenOf<Seq<char>>;

    open spec fn view(&self) -> TokenOf<Seq<char>> {
        TokenOf {
            symbol: self.symbol@,
            fg: self.fg,
            bg: self.bg,
            kinds: self.kinds,
            part: self.part,
        }
    }
}

/// What some cells are compared as.
pub open spec fn tokens_model(v: Seq<Token>) -> Seq<TokenModel> {
    Seq::new(v.len(), |i: int| v[i]@)
}

/// How wide the symbols of some cells are.
pub open spec fn token_widths(v: Seq<TokenModel>) -> Seq<usize> {
    Seq::new(v.len(), |i: int| columns(v[i].symbol))
}

/// The cells that are to be written, each by its column, its row and the run it
/// stands in.
pub open spec fn differing(old: Seq<TokenModel>, new: Seq<TokenModel>, cols: u16) -> Seq<
    (u16, u16, u16),
> {
    let at = stale(old, new, token_widths(old), token_widths(new), new.len() as int);
    Seq::new(
        at.len(),
        |k: int| (place(at[k], cols).0, place(at[k], cols).1, new[at[k]].part),
    )
}

/// The `ratatui` crate's `Buffer::diff` of two buffers of one size. They are
/// filled with the cells one for one: the symbol as it is, each three numbers as
/// a color, and the run of cells as the modifiers, which are handed back. It lists, in order, every cell of
/// the second that is not equal to its fellow in the first or that a symbol
/// before it, in either, reaches over, but for the one right behind a symbol of
/// more than one column; and it counts their places in sixteen bits. How wide a
/// symbol is it has from the `unicode-width` crate's `UnicodeWidthStr::width`.
#[verifier::external_body]
fn buffer_diff(old: &Vec<Token>, new: &Vec<Token>, cols: u16, rows: u16) -> (r: Vec<
    (u16, u16, u16),
>)
    requires
        old@.len() == cols * rows,
        new@.len() == cols * rows,
    ensures
        r@ == differing(tokens_model(old@), tokens_model(new@), cols),
{
    let area = Rect::new(0, 0, cols, rows);
    let rgb = |n: (u8, u8, u8)| Color::Rgb(n.0, n.1, n.2);
    let filled = |tokens: &Vec<Token>| {
        let mut buffer = Buffer::empty(area);
        for (cell, t) in buffer.content.iter_mut().zip(tokens) {
            cell.set_symbol(&t.symbol).set_fg(rgb(t.fg)).set_bg(rgb(t.bg));
            cell.underline_color = rgb(t.kinds);
            cell.modifier = Modifier::from_bits_retain(t.part);
        }
        buffer
    };
    filled(old).diff(&filled(new)).into_iter().map(|(x, y, c)| (x, y, c.modifier.bits())).collect()
}

/// What kind of color a color is, and its numbers.
pub open spec fn shade_code(s: Shade) -> (u8, (u8, u8, u8)) {
    match s {
        Shade::Reset => (0, (0, 0, 0)),
        Shade::Black => (1, (0, 0, 0)),
        Shade::Red => (2, (0, 0, 0)),
        Shade::Green => (3, (0, 0, 0)),
        Shade::Yellow => (4, (0, 0, 0)),
        Shade::Blue => (5, (0, 0, 0)),
        Shade::Magenta => (6, (0, 0, 0)),
        Shade::Cyan => (7, (0, 0, 0)),
        Shade::Gray => (8, (0, 0, 0)),
        Shade::DarkGray => (9, (0, 0, 0)),
        Shade::LightRed => (10, (0, 0, 0)),
        Shade::LightGreen => (11, (0, 0, 0)),
        Shade::LightYellow => (12, (0, 0, 0)),
        Shade::LightBlue => (13, (0, 0, 0)),
        Shade::LightMagenta => (14, (0, 0, 0)),
        Shade::LightCyan => (15, (0, 0, 0)),
        Shade::White => (16, (0, 0, 0)),
        Shade::Indexed(n) => (17, (n, 0, 0)),
        Shade::Rgb(r, g, b) => (18, (r, g, b)),
    }
}

fn code_shade(s: Shade) -> (r: (u8, (u8, u8, u8)))
    ensures
        r == shade_code(s),
{
    match s {
        Shade::Reset => (0, (0, 0, 0)),
        Shade::Black => (1, (0, 0, 0)),
        Shade::Red => (2, (0, 0, 0)),
        Shade::Green => (3, (0, 0, 0)),
        Shade::Yellow => (4, (0, 0, 0)),
        Shade::Blue => (5, (0, 0, 0)),
        Shade::Magenta => (6, (0, 0, 0)),
        Shade::Cyan => (7, (0, 0, 0)),
        Shade::Gray => (8, (0, 0, 0)),
        Shade::DarkGray => (9, (0, 0, 0)),
        Shade::LightRed => (10, (0, 0, 0)),
        Shade::LightGreen => (11, (0, 0, 0)),
        Shade::LightYellow => (12, (0, 0, 0)),
        Shade::LightBlue => (13, (0, 0, 0)),
        Shade::LightMagenta => (14, (0, 0, 0)),
        Shade::LightCyan => (15, (0, 0, 0)),
        Shade::White => (16, (0, 0, 0)),
        Shade::Indexed(n) => (17, (n, 0, 0)),
        Shade::Rgb(r, g, b) => (18, (r, g, b)),
    }
}

/// A number of its own, where something is so.
pub open spec fn counted(on: bool, n: u8) -> u8 {
    if on {
        n
    } else {
        0
    }
}

/// How a text is set, as one number.
pub open spec fn mods_code(m: Mods) -> u8 {
    (counted(m.bold, 1) + counted(m.italic, 2) + counted(m.underline, 4) + counted(m.reverse, 8)
        + counted(m.dim, 16) + counted(m.crossed_out, 32)) as u8
}

fn code_mods(m: Mods) -> (n: u8)
    ensures
        n == mods_code(m),
{
    let count = |on: bool, n: u8| -> (r: u8)
        ensures
            r == counted(on, n),
        {
            if on {
                n
            } else {
                0
            }
        };
    count(m.bold, 1) + count(m.italic, 2) + count(m.underline, 4) + count(m.reverse, 8) + count(
        m.dim,
        16,
    ) + count(m.crossed_out, 32)
}

/// The cell at a place as it is compared.
pub open spec fn token_of(c: DrawnModel, i: int) -> TokenModel {
    let (fg, bg) = (shade_code(c.style.fg), shade_code(c.style.bg));
    TokenOf {
        symbol: c.symbol,
        fg: fg.1,
        bg: bg.1,
        kinds: (fg.0, bg.0, mods_code(c.style.mods)),
        part: (i / 0x1_0000) as u16,
    }
}

/// The cells of a screen as they are compared.
pub open spec fn tokens_of(cells: Seq<DrawnModel>) -> Seq<TokenModel> {
    Seq::new(cells.len(), |i: int| token_of(cells[i], i))
}

proof fn tokens_stay_apart(a: DrawnModel, b: DrawnModel, i: int)
    ensures
        token_of(a, i) == token_of(b, i) <==> a == b,
{
    assert(shade_code(a.style.fg) == shade_code(b.style.fg) ==> a.style.fg == b.style.fg);
    assert(shade_code(a.style.bg) == shade_code(b.style.bg) ==> a.style.bg == b.style.bg);
    assert(mods_code(a.style.mods) == mods_code(b.style.mods) ==> a.style.mods == b.style.mods);
}

proof fn tokens_are_stale_where_cells_are(old: Seq<DrawnModel>, new: Seq<DrawnModel>, n: int)
    requires
        0 <= n <= new.len(),
        old.len() == new.len(),
    ensures
        stale(
            tokens_of(old),
            tokens_of(new),
            token_widths(tokens_of(old)),
            token_widths(tokens_of(new)),
            n,
        ) == stale(old, new, widths(old), widths(new), n),
    decreases n,
{
    assert(token_widths(tokens_of(old)) =~= widths(old));
    assert(token_widths(tokens_of(new)) =~= widths(new));
    if n > 0 {
        tokens_are_stale_where_cells_are(old, new, n - 1);
        tokens_stay_apart(old[n - 1], new[n - 1], n - 1);
    }
}

fn to_tokens(cells: &Vec<Drawn>) -> (r: Vec<Token>)
    requires
        cells@.len() <= 0xffff * 0xffff,
    ensures
        tokens_model(r@) == tokens_of(drawn_model(cells@)),
{
    let mut r: Vec<Token> = Vec::new();
    let mut i: usize = 0;
    while i < cells.len()
        invariant
            i <= cells@.len() <= 0xffff * 0xffff,
            r@.len() == i,
            forall|j: int| 0 <= j < i ==> (#[trigger] r@[j])@ == token_of(cells@[j]@, j),
        decreases cells@.len() - i,
    {
        let c = &cells[i];
        let (fg, bg) = (code_shade(c.style.fg), code_shade(c.style.bg));
        r.push(
            TokenOf {
                symbol: c.symbol.clone(),
                fg: fg.1,
                bg: bg.1,
                kinds: (fg.0, bg.0, code_mods(c.style.mods)),
                part: (i as u64 / 0x1_0000) as u16,
            },
        );
        i = i + 1;
    }
    assert(tokens_model(r@) =~= tokens_of(drawn_model(cells@)));
    r
}

/// What a link holds.
pub open spec fn link_model(l: Option<(u64, String)>) -> Option<(u64, Seq<char>)> {
    match l {
        Some((id, url)) => Some((id, url@)),
        None => None,
    }
}

/// The place that a column, a row and a run of cells name.
pub open spec fn index_of(at: (u16, u16, u16), cols: u16) -> int {
    at.2 * 0x1_0000 + at.1 * cols + at.0
}

/// The cell of a screen that a column, a row and a run of cells name, as it is
/// written. `links` are the links of the screen, place by place.
pub open spec fn cell_at(
    at: (u16, u16, u16),
    s: ScreenModel,
    links: Seq<Option<(u64, String)>>,
) -> ScreenCellModel {
    let c = s.cells[index_of(at, s.cols)];
    ScreenCellOf {
        x: at.0,
        y: at.1,
        symbol: c.symbol,
        style: c.style,
        link: link_model(links[at.1 * s.cols + at.0]),
    }
}

/// The cells of a screen that columns, rows and runs of cells name.
pub fn cells_at(
    places: &Vec<(u16, u16, u16)>,
    screen: &Screen,
    links: &Vec<Option<(u64, String)>>,
) -> (r: Vec<ScreenCell>)
    requires
        links@.len() == screen.cells@.len(),
        forall|k: int|
            0 <= k < places@.len() ==> index_of(#[trigger] places@[k], screen.cols)
                < screen.cells@.len(),
    ensures
        screen_cells(r@) == Seq::new(
            places@.len(),
            |k: int| cell_at(places@[k], screen@, links@),
        ),
{
    let mut r: Vec<ScreenCell> = Vec::new();
    let mut k: usize = 0;
    while k < places.len()
        invariant
            k <= places@.len(),
            r@.len() == k,
            links@.len() == screen.cells@.len(),
            forall|l: int|
                0 <= l < places@.len() ==> index_of(#[trigger] places@[l], screen.cols)
                    < screen.cells@.len(),
            forall|l: int|
                0 <= l < k ==> (#[trigger] r@[l])@ == cell_at(places@[l], screen@, links@),
        decreases places@.len() - k,
    {
        let (x, y, part): (u16, u16, u16) = places[k];
        assert(index_of(places@[k as int], screen.cols) < screen.cells@.len());
        proof {
            lemma_mul_inequality(y as int, 0xffff, screen.cols as int);
        }
        let at: u64 = y as u64 * screen.cols as u64 + x as u64;
        let i: u64 = part as u64 * 0x1_0000 + at;
        assert(screen.cells.len() == screen.cells@.len());
        let c = &screen.cells[i as usize];
        r.push(
            ScreenCellOf {
                x,
                y,
                symbol: c.symbol.clone(),
                style: c.style,
                link: match &links[at as usize] {
                    Some((id, url)) => Some((*id, url.clone())),
                    None => None,
                },
            },
        );
        k = k + 1;
    }
    assert(screen_cells(r@) =~= Seq::new(
        places@.len(),
        |k: int| cell_at(places@[k], screen@, links@),
    ));
    r
}

/// The places of a screen whose cells are to be written over another of its
/// size, in order.
pub open spec fn stale_cells(painted: ScreenModel, screen: ScreenModel) -> Seq<int> {
    stale(
        painted.cells,
        screen.cells,
        widths(painted.cells),
        widths(screen.cells),
        screen.cells.len() as int,
    )
}

/// The cells that are written for a screen over another of its size: those of
/// its stale places, in order, each with the link at the place that it is
/// counted at.
pub open spec fn changed(
    painted: ScreenModel,
    screen: ScreenModel,
    links: Seq<Option<(u64, String)>>,
) -> Seq<ScreenCellModel> {
    let at = stale_cells(painted, screen);
    Seq::new(
        at.len(),
        |k: int|
            {
                let (x, y) = place(at[k], screen.cols);
                ScreenCellOf {
                    x,
                    y,
                    symbol: screen.cells[at[k]].symbol,
                    style: screen.cells[at[k]].style,
                    link: link_model(links[at[k] % 0x1_0000]),
                }
            },
    )
}

proof fn a_place_is_named(i: int, s: ScreenModel)
    requires
        s.wf(),
        0 <= i < s.cells.len(),
    ensures
        ({
            let (x, y) = place(i, s.cols);
            let part = (i / 0x1_0000) as u16;
            &&& index_of((x, y, part), s.cols) == i
            &&& y * s.cols + x == i % 0x1_0000
        }),
{
    let (cols, rows) = (s.cols as int, s.rows as int);
    assert(cols > 0 && cols * rows <= 0xffff * 0xffff) by (nonlinear_arith)
        requires
            0 <= i < cols * rows,
            0 <= cols <= 0xffff,
            0 <= rows <= 0xffff,
    ;
    let p = i % 0x1_0000;
    lemma_fundamental_div_mod(p, cols);
    assert(0 <= p / cols <= p) by (nonlinear_arith)
        requires
            0 <= p,
            0 < cols,
    ;
    assert(0 <= p % cols < cols) by (nonlinear_arith)
        requires
            0 < cols,
    ;
    assert((p / cols) * cols == cols * (p / cols)) by (nonlinear_arith);
}

/// The cells that are to be written for a screen over another of its size.
pub fn changed_cells(
    painted: &Screen,
    screen: &Screen,
    links: &Vec<Option<(u64, String)>>,
) -> (r: Vec<ScreenCell>)
    requires
        painted@.wf(),
        screen@.wf(),
        painted.cols == screen.cols,
        painted.rows == screen.rows,
        links@.len() == screen.cells@.len(),
    ensures
        screen_cells(r@) == changed(painted@, screen@, links@),
{
    let ghost (old, new) = (painted@.cells, screen@.cells);
    proof {
        lemma_mul_inequality(screen.cols as int, 0xffff, screen.rows as int);
        lemma_mul_inequality(screen.rows as int, 0xffff, 0xffff);
    }
    let before = to_tokens(&painted.cells);
    let after = to_tokens(&screen.cells);
    assert(before@.len() == tokens_model(before@).len());
    assert(after@.len() == tokens_model(after@).len());
    let places = buffer_diff(&before, &after, screen.cols, screen.rows);
    let ghost at = stale_cells(painted@, screen@);
    proof {
        tokens_are_stale_where_cells_are(old, new, new.len() as int);
        stale_places(old, new, widths(old), widths(new), new.len() as int);
        assert forall|k: int| 0 <= k < at.len() implies index_of(
            #[trigger] places@[k],
            screen.cols,
        ) == at[k] && places@[k].1 * screen.cols + places@[k].0 == at[k] % 0x1_0000 && (
        places@[k].0, places@[k].1) == place(at[k], screen.cols) by {
            a_place_is_named(at[k], screen@);
        }
    }
    let r = cells_at(&places, screen, links);
    assert(screen_cells(r@) =~= changed(painted@, screen@, links@));
    r
}

/// The screen that what is painted is held against: of another size, nothing of
/// it can be kept.
pub open spec fn held_against(painted: ScreenModel, screen: ScreenModel) -> ScreenModel {
    if painted.cols == screen.cols && painted.rows == screen.rows {
        painted
    } else {
        blank(screen.cols, screen.rows)
    }
}

/// What bringing the terminal from one screen to another writes.
pub fn repaint(
    painted: &Screen,
    screen: &Screen,
    links: &Vec<Option<(u64, String)>>,
    marked_up: bool,
) -> (ops: Vec<TermOp>)
    requires
        painted@.wf(),
        screen@.wf(),
        links@.len() == screen.cells@.len(),
    ensures
        ops_model(ops@) == all_written(
            changed(held_against(painted@, screen@), screen@, links@),
            marked_up,
        ),
{
    let cells = if painted.cols == screen.cols && painted.rows == screen.rows {
        changed_cells(painted, screen, links)
    } else {
        changed_cells(&blank_screen(screen.cols, screen.rows), screen, links)
    };
    write_cells(&cells, marked_up)
}

/// A cell is written where it differs, and where it does not it is left alone:
/// on screens whose symbols take up no more than a column each, the places that
/// are written are exactly those at which the two screens differ.
pub proof fn exactly_what_differs_is_written(painted: ScreenModel, screen: ScreenModel, i: int)
    requires
        painted.wf(),
        screen.wf(),
        painted.cols == screen.cols,
        painted.rows == screen.rows,
        0 <= i < screen.cells.len(),
    ensures
        no_wider_than(1, painted.cells) && no_wider_than(1, screen.cells) ==> (stale_cells(
            painted,
            screen,
        ).contains(i) <==> screen.cells[i] != painted.cells[i]),
{
    let (was, now) = (widths(painted.cells), widths(screen.cells));
    stale_places(painted.cells, screen.cells, was, now, screen.cells.len() as int);
    if no_wider_than(1, painted.cells) && no_wider_than(1, screen.cells) {
        assert forall|j: int| 0 <= j < screen.cells.len() implies #[trigger] widest(was, now, j)
            <= 1 by {
            assert(columns(painted.cells[j].symbol) <= 1 && columns(screen.cells[j].symbol) <= 1);
        }
        assert(i > 0 ==> columns(screen.cells[i - 1].symbol) <= 1);
    }
}

/// No place is written twice, and they are written from the top down.
pub proof fn every_place_is_written_once(painted: ScreenModel, screen: ScreenModel, k: int, l: int)
    requires
        0 <= k < l < stale_cells(painted, screen).len(),
    ensures
        stale_cells(painted, screen)[k] < stale_cells(painted, screen)[l],
{
    stale_places(
        painted.cells,
        screen.cells,
        widths(painted.cells),
        widths(screen.cells),
        screen.cells.len() as int,
    );
}

/// Whatever the symbols, a place that is not written already shows what it is to
/// show, or is filled by the wide symbol before it.
pub proof fn what_is_not_written_is_as_it_was(painted: ScreenModel, screen: ScreenModel, i: int)
    requires
        painted.wf(),
        screen.wf(),
        painted.cols == screen.cols,
        painted.rows == screen.rows,
        0 <= i < screen.cells.len(),
        !stale_cells(painted, screen).contains(i),
    ensures
        screen.cells[i] == painted.cells[i] || i > 0 && columns(screen.cells[i - 1].symbol) > 1,
{
    let (was, now) = (widths(painted.cells), widths(screen.cells));
    stale_places(painted.cells, screen.cells, was, now, screen.cells.len() as int);
}

/// A screen that is painted already writes nothing, as long as no symbol takes
/// up more than two columns.
pub proof fn an_unchanged_screen_writes_nothing(
    screen: ScreenModel,
    links: Seq<Option<(u64, String)>>,
    marked_up: bool,
)
    requires
        screen.wf(),
    ensures
        no_wider_than(2, screen.cells) ==> all_written(
            changed(held_against(screen, screen), screen, links),
            marked_up,
        ) == Seq::<TermOpModel>::empty(),
{
    let now = widths(screen.cells);
    let at = stale_cells(screen, screen);
    stale_places(screen.cells, screen.cells, now, now, screen.cells.len() as int);
    if no_wider_than(2, screen.cells) && at.len() > 0 {
        let i = at[0];
        assert(at.contains(i));
        assert(reached_over(now, now, i));
        let j = choose|j: int| 0 <= j < i && i < j + #[trigger] widest(now, now, j);
        assert(columns(screen.cells[j].symbol) <= 2);
        assert(j == i - 1);
    }
    if no_wider_than(2, screen.cells) {
        assert(changed(screen, screen, links) =~= Seq::empty());
    }
}

/// What is written for a screen is what it holds: of each place that is
/// written its own symbol and style, at its own column and row, with the link
/// of that place. So it is on every screen of up to 65,536 cells.
pub proof fn a_written_cell_is_the_screens_own(
    painted: ScreenModel,
    screen: ScreenModel,
    links: Seq<Option<(u64, String)>>,
    k: int,
)
    requires
        screen.wf(),
        screen.cells.len() <= 0x1_0000,
        0 <= k < stale_cells(painted, screen).len(),
    ensures
        ({
            let i = stale_cells(painted, screen)[k];
            let c = changed(painted, screen, links)[k];
            &&& 0 <= i < screen.cells.len()
            &&& changed(painted, screen, links).len() == stale_cells(painted, screen).len()
            &&& c.symbol == screen.cells[i].symbol
            &&& c.style == screen.cells[i].style
            &&& c.y * screen.cols + c.x == i
            &&& c.x < screen.cols
            &&& c.link == link_model(links[i])
        }),
{
    let n = screen.cells.len() as int;
    stale_places(painted.cells, screen.cells, widths(painted.cells), widths(screen.cells), n);
    let i = stale_cells(painted, screen)[k];
    vstd::arithmetic::div_mod::lemma_small_mod(i as nat, 0x1_0000);
    a_place_is_named(i, screen);
    assert(screen.cols > 0) by {
        if screen.cols == 0 {
            assert(screen.cols * screen.rows == 0) by (nonlinear_arith)
                requires
                    screen.cols == 0,
            ;
        }
    }
    let cols = screen.cols as int;
    vstd::arithmetic::div_mod::lemma_mod_bound(i, cols);
}

/// A screen of another size is written as if nothing were on the terminal, and
/// one of the same size over what is.
pub proof fn another_size_is_painted_from_nothing(painted: ScreenModel, screen: ScreenModel, i: int)
    ensures
        painted.cols == screen.cols && painted.rows == screen.rows ==> held_against(painted, screen)
            == painted,
        painted.cols != screen.cols || painted.rows != screen.rows ==> {
            let from = held_against(painted, screen);
            &&& from.cols == screen.cols && from.rows == screen.rows
            &&& 0 <= i < screen.cols * screen.rows ==> from.cells[i].symbol == " "@
                && from.cells[i].style.fg == Shade::Reset && from.cells[i].style.bg == Shade::Reset
                && from.cells[i].style.mods == no_mods()
        },
{
}

} // verus!
