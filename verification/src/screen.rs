//! Writing changed cells to a terminal: where the cursor goes, when the style
//! changes, and which cells stand in which hyperlink.
use vstd::prelude::*;

use crate::stage::{no_mods, Color, Mods};
use crate::text::same;

verus! {

/// A color of the screen.
#[derive(Clone, Copy, Debug, PartialEq, Eq, Structural)]
pub enum Shade {
    Reset,
    Black,
    Red,
    Green,
    Yellow,
    Blue,
    Magenta,
    Cyan,
    Gray,
    DarkGray,
    LightRed,
    LightGreen,
    LightYellow,
    LightBlue,
    LightMagenta,
    LightCyan,
    White,
    Indexed(u8),
    Rgb(u8, u8, u8),
}

/// The color of a cell of a pane, as a color of the screen.
#[verifier::allow_in_spec]
pub fn conv_color(c: Color) -> Shade
    returns
        match c {
            Color::Default => Shade::Reset,
            Color::Indexed(n) => Shade::Indexed(n),
            Color::Rgb(r, g, b) => Shade::Rgb(r, g, b),
        },
{
    match c {
        Color::Default => Shade::Reset,
        Color::Indexed(n) => Shade::Indexed(n),
        Color::Rgb(r, g, b) => Shade::Rgb(r, g, b),
    }
}

/// A color as the terminal names it: its plain colors are the dark ones.
#[derive(Clone, Copy, Debug, PartialEq, Eq, Structural)]
pub enum TermColor {
    Reset,
    Black,
    DarkRed,
    DarkGreen,
    DarkYellow,
    DarkBlue,
    DarkMagenta,
    DarkCyan,
    Grey,
    DarkGrey,
    Red,
    Green,
    Yellow,
    Blue,
    Magenta,
    Cyan,
    White,
    AnsiValue(u8),
    Rgb { r: u8, g: u8, b: u8 },
}

/// A color of the screen as the terminal names it.
#[verifier::allow_in_spec]
pub fn term_color(c: Shade) -> TermColor
    returns
        (match c {
            Shade::Reset => TermColor::Reset,
            Shade::Black => TermColor::Black,
            Shade::Red => TermColor::DarkRed,
            Shade::Green => TermColor::DarkGreen,
            Shade::Yellow => TermColor::DarkYellow,
            Shade::Blue => TermColor::DarkBlue,
            Shade::Magenta => TermColor::DarkMagenta,
            Shade::Cyan => TermColor::DarkCyan,
            Shade::Gray => TermColor::Grey,
            Shade::DarkGray => TermColor::DarkGrey,
            Shade::LightRed => TermColor::Red,
            Shade::LightGreen => TermColor::Green,
            Shade::LightYellow => TermColor::Yellow,
            Shade::LightBlue => TermColor::Blue,
            Shade::LightMagenta => TermColor::Magenta,
            Shade::LightCyan => TermColor::Cyan,
            Shade::White => TermColor::White,
            Shade::Indexed(n) => TermColor::AnsiValue(n),
            Shade::Rgb(r, g, b) => TermColor::Rgb { r, g, b },
        }),
{
    match c {
        Shade::Reset => TermColor::Reset,
        Shade::Black => TermColor::Black,
        Shade::Red => TermColor::DarkRed,
        Shade::Green => TermColor::DarkGreen,
        Shade::Yellow => TermColor::DarkYellow,
        Shade::Blue => TermColor::DarkBlue,
        Shade::Magenta => TermColor::DarkMagenta,
        Shade::Cyan => TermColor::DarkCyan,
        Shade::Gray => TermColor::Grey,
        Shade::DarkGray => TermColor::DarkGrey,
        Shade::LightRed => TermColor::Red,
        Shade::LightGreen => TermColor::Green,
        Shade::LightYellow => TermColor::Yellow,
        Shade::LightBlue => TermColor::Blue,
        Shade::LightMagenta => TermColor::Magenta,
        Shade::LightCyan => TermColor::Cyan,
        Shade::White => TermColor::White,
        Shade::Indexed(n) => TermColor::AnsiValue(n),
        Shade::Rgb(r, g, b) => TermColor::Rgb { r, g, b },
    }
}

/// No two colors of the screen are one to the terminal.
pub proof fn colors_stay_apart(a: Shade, b: Shade)
    requires
        a != b,
    ensures
        term_color(a) != term_color(b),
{
}

/// A way to set text.
#[derive(Clone, Copy, Debug, PartialEq, Eq, Structural)]
pub enum TermAttribute {
    Bold,
    Dim,
    Italic,
    Underlined,
    Reverse,
    CrossedOut,
}

/// How a cell is drawn.
#[derive(Clone, Copy, Debug, PartialEq, Eq, Structural)]
pub struct Style {
    pub fg: Shade,
    pub bg: Shade,
    pub mods: Mods,
}

/// A cell to be written, with the link it stands in, by its id and its target.
#[verifier::ext_equal]
#[derive(Clone, Debug, PartialEq, Eq)]
pub struct ScreenCellOf<S> {
    pub x: u16,
    pub y: u16,
    pub symbol: S,
    pub style: Style,
    pub link: Option<(u64, S)>,
}

pub type ScreenCell = ScreenCellOf<String>;

pub type ScreenCellModel = ScreenCellOf<Seq<char>>;

impl View for ScreenCellOf<String> {
    type V = ScreenCellOf<Seq<char>>;

    open spec fn view(&self) -> ScreenCellOf<Seq<char>> {
        ScreenCellOf {
            x: self.x,
            y: self.y,
            symbol: self.symbol@,
            style: self.style,
            link: match self.link {
                Some((id, url)) => Some((id, url@)),
                None => None,
            },
        }
    }
}

/// What some cells hold.
pub open spec fn screen_cells(v: Seq<ScreenCell>) -> Seq<ScreenCellModel> {
    Seq::new(v.len(), |i: int| v[i]@)
}

/// Something to be written to the terminal.
#[verifier::ext_equal]
#[derive(Clone, Debug, PartialEq, Eq)]
pub enum TermOpOf<S> {
    MoveTo(u16, u16),
    Reset,
    Foreground(TermColor),
    Background(TermColor),
    Attribute(TermAttribute),
    OpenLink { id: u64, url: S },
    CloseLink,
    Print(S),
}

pub type TermOp = TermOpOf<String>;

pub type TermOpModel = TermOpOf<Seq<char>>;

impl View for TermOpOf<String> {
    type V = TermOpOf<Seq<char>>;

    open spec fn view(&self) -> TermOpOf<Seq<char>> {
        match *self {
            TermOpOf::MoveTo(x, y) => TermOpOf::MoveTo(x, y),
            TermOpOf::Reset => TermOpOf::Reset,
            TermOpOf::Foreground(c) => TermOpOf::Foreground(c),
            TermOpOf::Background(c) => TermOpOf::Background(c),
            TermOpOf::Attribute(a) => TermOpOf::Attribute(a),
            TermOpOf::OpenLink { id, url } => TermOpOf::OpenLink { id, url: url@ },
            TermOpOf::CloseLink => TermOpOf::CloseLink,
            TermOpOf::Print(s) => TermOpOf::Print(s@),
        }
    }
}

/// What some writes are.
pub open spec fn ops_model(v: Seq<TermOp>) -> Seq<TermOpModel> {
    Seq::new(v.len(), |i: int| v[i]@)
}

proof fn ops_push(v: Seq<TermOp>, op: TermOp)
    ensures
        ops_model(v.push(op)) == ops_model(v).push(op@),
{
    assert(ops_model(v.push(op)) =~= ops_model(v).push(op@));
}

fn write_op(ops: &mut Vec<TermOp>, op: TermOp)
    ensures
        ops_model(final(ops)@) == ops_model(old(ops)@).push(op@),
{
    proof {
        ops_push(ops@, op);
    }
    ops.push(op);
}

/// One write, where it applies.
pub open spec fn op_if(on: bool, a: TermAttribute) -> Seq<TermOpModel> {
    if on {
        seq![TermOpOf::Attribute(a)]
    } else {
        Seq::empty()
    }
}

/// What setting a style writes: everything is reset first.
pub open spec fn style_ops(s: Style) -> Seq<TermOpModel> {
    seq![
        TermOpOf::Reset,
        TermOpOf::Foreground(term_color(s.fg)),
        TermOpOf::Background(term_color(s.bg)),
    ] + op_if(s.mods.bold, TermAttribute::Bold) + op_if(s.mods.dim, TermAttribute::Dim) + op_if(
        s.mods.italic,
        TermAttribute::Italic,
    ) + op_if(s.mods.underline, TermAttribute::Underlined) + op_if(
        s.mods.reverse,
        TermAttribute::Reverse,
    ) + op_if(s.mods.crossed_out, TermAttribute::CrossedOut)
}

fn write_if(ops: &mut Vec<TermOp>, on: bool, a: TermAttribute)
    ensures
        ops_model(final(ops)@) == ops_model(old(ops)@) + op_if(on, a),
{
    if on {
        write_op(ops, TermOp::Attribute(a));
        assert(ops_model(ops@) =~= ops_model(old(ops)@) + op_if(on, a));
    } else {
        assert(ops_model(ops@) =~= ops_model(old(ops)@) + op_if(on, a));
    }
}

proof fn regrouped(a: Seq<TermOpModel>, b: Seq<TermOpModel>, c: Seq<TermOpModel>)
    ensures
        (a + b) + c == a + (b + c),
{
    assert((a + b) + c =~= a + (b + c));
}

/// Sets a style.
pub fn apply_style(ops: &mut Vec<TermOp>, s: Style)
    ensures
        ops_model(final(ops)@) == ops_model(old(ops)@) + style_ops(s),
{
    let ghost before = ops_model(ops@);
    let ghost base: Seq<TermOpModel> = seq![
        TermOpOf::Reset,
        TermOpOf::Foreground(term_color(s.fg)),
        TermOpOf::Background(term_color(s.bg)),
    ];
    write_op(ops, TermOp::Reset);
    write_op(ops, TermOp::Foreground(term_color(s.fg)));
    write_op(ops, TermOp::Background(term_color(s.bg)));
    assert(ops_model(ops@) =~= before + base);
    write_if(ops, s.mods.bold, TermAttribute::Bold);
    let ghost o1 = op_if(s.mods.bold, TermAttribute::Bold);
    write_if(ops, s.mods.dim, TermAttribute::Dim);
    let ghost o2 = op_if(s.mods.dim, TermAttribute::Dim);
    write_if(ops, s.mods.italic, TermAttribute::Italic);
    let ghost o3 = op_if(s.mods.italic, TermAttribute::Italic);
    write_if(ops, s.mods.underline, TermAttribute::Underlined);
    let ghost o4 = op_if(s.mods.underline, TermAttribute::Underlined);
    write_if(ops, s.mods.reverse, TermAttribute::Reverse);
    let ghost o5 = op_if(s.mods.reverse, TermAttribute::Reverse);
    write_if(ops, s.mods.crossed_out, TermAttribute::CrossedOut);
    let ghost o6 = op_if(s.mods.crossed_out, TermAttribute::CrossedOut);
    proof {
        regrouped(before, base, o1);
        regrouped(before, base + o1, o2);
        regrouped(before, base + o1 + o2, o3);
        regrouped(before, base + o1 + o2 + o3, o4);
        regrouped(before, base + o1 + o2 + o3 + o4, o5);
        regrouped(before, base + o1 + o2 + o3 + o4 + o5, o6);
    }
}

/// Writes so far, the style that the terminal is in, and the link that is open.
#[verifier::ext_equal]
pub struct Writing {
    pub ops: Seq<TermOpModel>,
    pub style: Option<Style>,
    pub link: Option<u64>,
}

/// The link that a cell stands in, where links are marked up at all.
pub open spec fn link_of(c: ScreenCellModel, marked_up: bool) -> Option<(u64, Seq<char>)> {
    if marked_up {
        c.link
    } else {
        None
    }
}

/// The id of a link.
pub open spec fn id_of(link: Option<(u64, Seq<char>)>) -> Option<u64> {
    match link {
        Some((id, _)) => Some(id),
        None => None,
    }
}

/// What is written for a symbol: a cell with nothing in it still takes up a
/// column.
pub open spec fn printed(symbol: Seq<char>) -> Seq<char> {
    if symbol == ""@ {
        " "@
    } else {
        symbol
    }
}

/// What a change of style writes.
pub open spec fn style_change(from: Option<Style>, to: Style) -> Seq<TermOpModel> {
    if from != Some(to) {
        style_ops(to)
    } else {
        Seq::empty()
    }
}

/// What a change of link writes.
pub open spec fn link_change(from: Option<u64>, to: Option<(u64, Seq<char>)>) -> Seq<TermOpModel> {
    if from != id_of(to) {
        match to {
            Some((id, url)) => seq![TermOpOf::OpenLink { id, url }],
            None => seq![TermOpOf::CloseLink],
        }
    } else {
        Seq::empty()
    }
}

/// The writes with one more cell: the cursor goes there, the style and the link
/// change where they have to, and the symbol is printed.
pub open spec fn cell_written(w: Writing, c: ScreenCellModel, marked_up: bool) -> Writing {
    let link = link_of(c, marked_up);
    Writing {
        ops: w.ops + seq![TermOpOf::MoveTo(c.x, c.y)] + style_change(w.style, c.style) + link_change(
            w.link,
            link,
        ) + seq![TermOpOf::Print(printed(c.symbol))],
        style: Some(c.style),
        link: id_of(link),
    }
}

/// The writes for some cells, with the last link still open.
pub open spec fn cells_written(cells: Seq<ScreenCellModel>, marked_up: bool) -> Writing
    decreases cells.len(),
{
    if cells.len() == 0 {
        Writing { ops: Seq::empty(), style: None, link: None }
    } else {
        cell_written(cells_written(cells.drop_last(), marked_up), cells.last(), marked_up)
    }
}

/// The writes for some cells. A link that is open at the end is closed.
pub open spec fn all_written(cells: Seq<ScreenCellModel>, marked_up: bool) -> Seq<TermOpModel> {
    let w = cells_written(cells, marked_up);
    if w.link is Some {
        w.ops.push(TermOpOf::CloseLink)
    } else {
        w.ops
    }
}

fn write_cell(
    ops: &mut Vec<TermOp>,
    style: Option<Style>,
    link: Option<u64>,
    c: &ScreenCell,
    marked_up: bool,
) -> (after: Option<u64>)
    ensures
        ({
            let w = cell_written(
                Writing { ops: ops_model(old(ops)@), style, link },
                c@,
                marked_up,
            );
            ops_model(final(ops)@) == w.ops && after == w.link
        }),
{
    let ghost before = ops_model(ops@);
    write_op(ops, TermOp::MoveTo(c.x, c.y));
    let changed = match style {
        Some(s) => s != c.style,
        None => true,
    };
    if changed {
        apply_style(ops, c.style);
    }
    let ghost styled = before + seq![TermOpOf::MoveTo(c.x, c.y)] + style_change(style, c.style);
    assert(ops_model(ops@) =~= styled);
    let to: Option<u64> = match (&c.link, marked_up) {
        (Some((id, _)), true) => Some(*id),
        _ => None,
    };
    let moved = match (link, to) {
        (Some(a), Some(b)) => a != b,
        (None, None) => false,
        _ => true,
    };
    if moved {
        match (&c.link, marked_up) {
            (Some((id, url)), true) => write_op(
                ops,
                TermOp::OpenLink { id: *id, url: url.clone() },
            ),
            _ => write_op(ops, TermOp::CloseLink),
        }
    }
    let ghost linked = styled + link_change(link, link_of(c@, marked_up));
    assert(ops_model(ops@) =~= linked);
    if same(c.symbol.as_str(), "") {
        write_op(ops, TermOp::Print(" ".to_owned()));
    } else {
        write_op(ops, TermOp::Print(c.symbol.clone()));
    }
    assert(ops_model(ops@) =~= linked + seq![TermOpOf::Print(printed(c.symbol@))]);
    to
}

/// What writing some cells to the terminal writes.
pub fn write_cells(cells: &Vec<ScreenCell>, marked_up: bool) -> (ops: Vec<TermOp>)
    ensures
        ops_model(ops@) == all_written(screen_cells(cells@), marked_up),
{
    let ghost all = screen_cells(cells@);
    let mut ops: Vec<TermOp> = Vec::new();
    let mut style: Option<Style> = None;
    let mut link: Option<u64> = None;
    let mut i: usize = 0;
    assert(ops_model(ops@) =~= Seq::empty());
    assert(all.take(0) =~= Seq::empty());
    while i < cells.len()
        invariant
            i <= cells@.len(),
            all == screen_cells(cells@),
            (Writing { ops: ops_model(ops@), style, link }) == cells_written(
                all.take(i as int),
                marked_up,
            ),
        decreases cells@.len() - i,
    {
        proof {
            assert(all.take(i as int + 1).drop_last() =~= all.take(i as int));
            assert(all.take(i as int + 1).last() == cells@[i as int]@);
        }
        link = write_cell(&mut ops, style, link, &cells[i], marked_up);
        style = Some(cells[i].style);
        i = i + 1;
    }
    assert(all.take(i as int) =~= all);
    if link.is_some() {
        write_op(&mut ops, TermOp::CloseLink);
    }
    ops
}

/// A cell as the terminal shows it.
#[verifier::ext_equal]
pub struct Shown {
    pub x: u16,
    pub y: u16,
    pub symbol: Seq<char>,
    pub fg: TermColor,
    pub bg: TermColor,
    pub mods: Mods,
    pub link: Option<u64>,
}

/// A terminal: where its cursor is, what it draws in, the link that is open,
/// and what has been printed, in order.
#[verifier::ext_equal]
pub struct Terminal {
    pub x: u16,
    pub y: u16,
    pub fg: TermColor,
    pub bg: TermColor,
    pub mods: Mods,
    pub link: Option<u64>,
    pub shown: Seq<Shown>,
}

/// What a write does to a terminal.
pub open spec fn carried_out(t: Terminal, op: TermOpModel) -> Terminal {
    match op {
        TermOpOf::MoveTo(x, y) => Terminal { x, y, ..t },
        TermOpOf::Reset => Terminal {
            fg: TermColor::Reset,
            bg: TermColor::Reset,
            mods: no_mods(),
            ..t
        },
        TermOpOf::Foreground(c) => Terminal { fg: c, ..t },
        TermOpOf::Background(c) => Terminal { bg: c, ..t },
        TermOpOf::Attribute(a) => Terminal {
            mods: match a {
                TermAttribute::Bold => Mods { bold: true, ..t.mods },
                TermAttribute::Dim => Mods { dim: true, ..t.mods },
                TermAttribute::Italic => Mods { italic: true, ..t.mods },
                TermAttribute::Underlined => Mods { underline: true, ..t.mods },
                TermAttribute::Reverse => Mods { reverse: true, ..t.mods },
                TermAttribute::CrossedOut => Mods { crossed_out: true, ..t.mods },
            },
            ..t
        },
        TermOpOf::OpenLink { id, .. } => Terminal { link: Some(id), ..t },
        TermOpOf::CloseLink => Terminal { link: None, ..t },
        TermOpOf::Print(s) => Terminal {
            shown: t.shown.push(
                Shown {
                    x: t.x,
                    y: t.y,
                    symbol: s,
                    fg: t.fg,
                    bg: t.bg,
                    mods: t.mods,
                    link: t.link,
                },
            ),
            ..t
        },
    }
}

/// What some writes do to a terminal, one after the other.
pub open spec fn all_carried_out(t: Terminal, ops: Seq<TermOpModel>) -> Terminal
    decreases ops.len(),
{
    if ops.len() == 0 {
        t
    } else {
        carried_out(all_carried_out(t, ops.drop_last()), ops.last())
    }
}

proof fn carried_out_in_two(t: Terminal, a: Seq<TermOpModel>, b: Seq<TermOpModel>)
    ensures
        all_carried_out(t, a + b) == all_carried_out(all_carried_out(t, a), b),
    decreases b.len(),
{
    if b.len() == 0 {
        assert(a + b =~= a);
    } else {
        assert((a + b).drop_last() =~= a + b.drop_last());
        carried_out_in_two(t, a, b.drop_last());
    }
}

proof fn carried_out_one(t: Terminal, op: TermOpModel)
    ensures
        all_carried_out(t, seq![op]) == carried_out(t, op),
{
    reveal_with_fuel(all_carried_out, 2);
    assert(seq![op].drop_last() =~= Seq::empty());
}

proof fn attribute_set(t: Terminal, on: bool, a: TermAttribute)
    ensures
        all_carried_out(t, op_if(on, a)) == (if on {
            carried_out(t, TermOpOf::Attribute(a))
        } else {
            t
        }),
{
    if on {
        carried_out_one(t, TermOpOf::Attribute(a));
    }
}

proof fn style_set(t: Terminal, s: Style)
    ensures
        all_carried_out(t, style_ops(s)) == (Terminal {
            fg: term_color(s.fg),
            bg: term_color(s.bg),
            mods: s.mods,
            ..t
        }),
{
    let base: Seq<TermOpModel> = seq![
        TermOpOf::Reset,
        TermOpOf::Foreground(term_color(s.fg)),
        TermOpOf::Background(term_color(s.bg)),
    ];
    let t0 = all_carried_out(t, base);
    assert(t0 == (Terminal {
        fg: term_color(s.fg),
        bg: term_color(s.bg),
        mods: no_mods(),
        ..t
    })) by {
        reveal_with_fuel(all_carried_out, 4);
        assert(base.drop_last() =~= seq![
            TermOpOf::Reset,
            TermOpOf::Foreground(term_color(s.fg)),
        ]);
        assert(base.drop_last().drop_last() =~= seq![TermOpModel::Reset]);
        assert(base.drop_last().drop_last().drop_last() =~= Seq::<TermOpModel>::empty());
    }
    let o1 = op_if(s.mods.bold, TermAttribute::Bold);
    let o2 = op_if(s.mods.dim, TermAttribute::Dim);
    let o3 = op_if(s.mods.italic, TermAttribute::Italic);
    let o4 = op_if(s.mods.underline, TermAttribute::Underlined);
    let o5 = op_if(s.mods.reverse, TermAttribute::Reverse);
    let o6 = op_if(s.mods.crossed_out, TermAttribute::CrossedOut);
    carried_out_in_two(t, base, o1);
    attribute_set(t0, s.mods.bold, TermAttribute::Bold);
    let t1 = all_carried_out(t0, o1);
    carried_out_in_two(t, base + o1, o2);
    attribute_set(t1, s.mods.dim, TermAttribute::Dim);
    let t2 = all_carried_out(t1, o2);
    carried_out_in_two(t, base + o1 + o2, o3);
    attribute_set(t2, s.mods.italic, TermAttribute::Italic);
    let t3 = all_carried_out(t2, o3);
    carried_out_in_two(t, base + o1 + o2 + o3, o4);
    attribute_set(t3, s.mods.underline, TermAttribute::Underlined);
    let t4 = all_carried_out(t3, o4);
    carried_out_in_two(t, base + o1 + o2 + o3 + o4, o5);
    attribute_set(t4, s.mods.reverse, TermAttribute::Reverse);
    let t5 = all_carried_out(t4, o5);
    carried_out_in_two(t, base + o1 + o2 + o3 + o4 + o5, o6);
    attribute_set(t5, s.mods.crossed_out, TermAttribute::CrossedOut);
}

/// A cell as it is meant to be shown.
pub open spec fn meant(c: ScreenCellModel, marked_up: bool) -> Shown {
    Shown {
        x: c.x,
        y: c.y,
        symbol: printed(c.symbol),
        fg: term_color(c.style.fg),
        bg: term_color(c.style.bg),
        mods: c.style.mods,
        link: id_of(link_of(c, marked_up)),
    }
}

spec fn drawing_in(t: Terminal, s: Style) -> Terminal {
    Terminal { fg: term_color(s.fg), bg: term_color(s.bg), mods: s.mods, ..t }
}

proof fn style_changed(t: Terminal, from: Option<Style>, to: Style)
    requires
        from matches Some(s) ==> t == drawing_in(t, s),
    ensures
        all_carried_out(t, style_change(from, to)) == drawing_in(t, to),
{
    if from != Some(to) {
        style_set(t, to);
    }
}

proof fn link_changed(t: Terminal, from: Option<u64>, to: Option<(u64, Seq<char>)>)
    requires
        t.link == from,
    ensures
        all_carried_out(t, link_change(from, to)) == (Terminal { link: id_of(to), ..t }),
{
    if from != id_of(to) {
        match to {
            Some((id, url)) => carried_out_one(t, TermOpOf::OpenLink { id, url }),
            None => carried_out_one(t, TermOpOf::CloseLink),
        }
    }
}

proof fn cell_comes_out(t: Terminal, w: Writing, c: ScreenCellModel, marked_up: bool)
    requires
        all_carried_out(t, w.ops).link == w.link,
        w.style matches Some(s) ==> all_carried_out(t, w.ops) == drawing_in(
            all_carried_out(t, w.ops),
            s,
        ),
    ensures
        ({
            let t0 = all_carried_out(t, w.ops);
            all_carried_out(t, cell_written(w, c, marked_up).ops) == drawing_in(
                Terminal {
                    x: c.x,
                    y: c.y,
                    link: id_of(link_of(c, marked_up)),
                    shown: t0.shown.push(meant(c, marked_up)),
                    ..t0
                },
                c.style,
            )
        }),
{
    let link = link_of(c, marked_up);
    let a: Seq<TermOpModel> = seq![TermOpOf::MoveTo(c.x, c.y)];
    let b = style_change(w.style, c.style);
    let d = link_change(w.link, link);
    let e: Seq<TermOpModel> = seq![TermOpOf::Print(printed(c.symbol))];
    let t0 = all_carried_out(t, w.ops);
    carried_out_in_two(t, w.ops, a);
    carried_out_one(t0, TermOpOf::MoveTo(c.x, c.y));
    let t1 = all_carried_out(t0, a);
    carried_out_in_two(t, w.ops + a, b);
    style_changed(t1, w.style, c.style);
    let t2 = all_carried_out(t1, b);
    carried_out_in_two(t, w.ops + a + b, d);
    link_changed(t2, w.link, link);
    let t3 = all_carried_out(t2, d);
    carried_out_in_two(t, w.ops + a + b + d, e);
    carried_out_one(t3, TermOpOf::Print(printed(c.symbol)));
}

proof fn cells_come_out(cells: Seq<ScreenCellModel>, marked_up: bool, t: Terminal)
    requires
        t.link is None,
    ensures
        ({
            let w = cells_written(cells, marked_up);
            let after = all_carried_out(t, w.ops);
            &&& after.link == w.link
            &&& after.shown == t.shown + Seq::new(cells.len(), |i: int| meant(cells[i], marked_up))
            &&& w.style matches Some(s) ==> after == drawing_in(after, s)
        }),
    decreases cells.len(),
{
    if cells.len() == 0 {
        assert(t.shown + Seq::new(0, |i: int| meant(cells[i], marked_up)) =~= t.shown);
    } else {
        let rest = cells.drop_last();
        let c = cells.last();
        cells_come_out(rest, marked_up, t);
        cell_comes_out(t, cells_written(rest, marked_up), c, marked_up);
        let before = t.shown + Seq::new(rest.len(), |i: int| meant(rest[i], marked_up));
        assert(before.push(meant(c, marked_up)) =~= t.shown + Seq::new(
            cells.len(),
            |i: int| meant(cells[i], marked_up),
        ));
    }
}

/// Whatever the terminal was drawing in, the writes have it show every cell in
/// its own place, style and link, in order, and leave no link open.
pub proof fn the_terminal_shows_what_the_cells_say(
    cells: Seq<ScreenCellModel>,
    marked_up: bool,
    t: Terminal,
)
    requires
        t.link is None,
    ensures
        ({
            let after = all_carried_out(t, all_written(cells, marked_up));
            &&& after.shown == t.shown + Seq::new(cells.len(), |i: int| meant(cells[i], marked_up))
            &&& after.link is None
        }),
{
    cells_come_out(cells, marked_up, t);
    let w = cells_written(cells, marked_up);
    if w.link is Some {
        let close: Seq<TermOpModel> = seq![TermOpOf::CloseLink];
        assert(w.ops.push(TermOpOf::CloseLink) =~= w.ops + close);
        carried_out_in_two(t, w.ops, close);
        carried_out_one(all_carried_out(t, w.ops), TermOpOf::CloseLink);
    }
}

/// What ends a hyperlink.
pub fn close_link() -> (s: String)
    ensures
        s@ == "\u{1b}]8;;\u{1b}\\"@,
{
    "\u{1b}]8;;\u{1b}\\".to_owned()
}

/// The plain colors of the screen are the dark ones of the terminal and the
/// light ones its plain ones; a numbered color keeps its number, and a mixed
/// one its parts in order.
pub proof fn a_color_is_the_terminals_own(n: u8, r: u8, g: u8, b: u8)
    ensures
        term_color(Shade::Reset) == TermColor::Reset,
        term_color(Shade::Black) == TermColor::Black,
        term_color(Shade::Red) == TermColor::DarkRed,
        term_color(Shade::Green) == TermColor::DarkGreen,
        term_color(Shade::Yellow) == TermColor::DarkYellow,
        term_color(Shade::Blue) == TermColor::DarkBlue,
        term_color(Shade::Magenta) == TermColor::DarkMagenta,
        term_color(Shade::Cyan) == TermColor::DarkCyan,
        term_color(Shade::Gray) == TermColor::Grey,
        term_color(Shade::DarkGray) == TermColor::DarkGrey,
        term_color(Shade::LightRed) == TermColor::Red,
        term_color(Shade::LightGreen) == TermColor::Green,
        term_color(Shade::LightYellow) == TermColor::Yellow,
        term_color(Shade::LightBlue) == TermColor::Blue,
        term_color(Shade::LightMagenta) == TermColor::Magenta,
        term_color(Shade::LightCyan) == TermColor::Cyan,
        term_color(Shade::White) == TermColor::White,
        term_color(Shade::Indexed(n)) == TermColor::AnsiValue(n),
        term_color(Shade::Rgb(r, g, b)) == (TermColor::Rgb { r, g, b }),
        conv_color(Color::Default) == Shade::Reset,
        conv_color(Color::Indexed(n)) == Shade::Indexed(n),
        conv_color(Color::Rgb(r, g, b)) == Shade::Rgb(r, g, b),
{
}

/// What is meant by a cell is its own place, symbol, colors, settings and
/// link: a cell with nothing in it is a blank, and its link counts only where
/// links are marked up.
pub proof fn a_cell_means_what_it_holds(c: ScreenCellModel, id: u64, url: Seq<char>)
    ensures
        ({
            let m = meant(c, true);
            &&& m.x == c.x && m.y == c.y
            &&& m.fg == term_color(c.style.fg) && m.bg == term_color(c.style.bg)
            &&& m.mods == c.style.mods
            &&& c.symbol.len() > 0 ==> m.symbol == c.symbol
            &&& c.symbol.len() == 0 ==> m.symbol == " "@
            &&& c.link == Some((id, url)) ==> m.link == Some(id)
            &&& c.link is None ==> m.link is None
            &&& meant(c, false).link is None
        }),
{
    reveal_strlit("");
    if c.symbol.len() == 0 {
        assert(c.symbol =~= ""@);
    }
}

/// Nothing is written that need not be: a style that the terminal is in is not
/// set again and a link that is open is not opened again. One that changes is
/// opened by its own address.
pub proof fn only_a_change_is_written(s: Style, id: u64, url: Seq<char>, other: u64)
    ensures
        style_change(Some(s), s).len() == 0,
        link_change(Some(id), Some((id, url))).len() == 0,
        link_change(None, None).len() == 0,
        link_change(None, Some((id, url))) == seq![TermOpOf::OpenLink { id, url }],
        other != id ==> link_change(Some(other), Some((id, url))) == seq![
            TermOpOf::OpenLink { id, url },
        ],
        link_change(Some(id), None) == seq![TermOpOf::<Seq<char>>::CloseLink],
{
}

/// A style is set from nothing: it is reset first, and then its colors and its
/// settings are written.
pub proof fn a_style_is_set_from_nothing(s: Style)
    ensures
        style_ops(s)[0] == TermOpOf::<Seq<char>>::Reset,
        style_ops(s)[1] == TermOpOf::<Seq<char>>::Foreground(term_color(s.fg)),
        style_ops(s)[2] == TermOpOf::<Seq<char>>::Background(term_color(s.bg)),
        !s.mods.bold && !s.mods.dim && !s.mods.italic && !s.mods.underline && !s.mods.reverse
            && !s.mods.crossed_out ==> style_ops(s).len() == 3,
{
}

} // verus!
