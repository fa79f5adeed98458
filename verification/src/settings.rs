//! The settings page: groups of rows, each a choice, a switch or a size.
use vstd::prelude::*;

use crate::text::{first_index, first_index_is_first, position, same, texts};
use crate::types::{
    opt_flow, Band, Bench, BenchModel, BenchOf, Edit, EditModel, EditOf, Flow, FlowModel, FlowOf,
    GeomStep, KeyCode, KeyEvent, Page,
};

verus! {

/// Which setting a row is.
#[derive(Clone, Copy, Debug, PartialEq, Eq, Structural)]
pub enum RowId {
    Theme,
    DefaultAgent,
    AutoAttach,
    Links,
    UpdateCheck,
    Other,
}

/// Which size a row sets.
#[derive(Clone, Copy, Debug, PartialEq, Eq, Structural)]
pub enum Dim {
    LeftRail,
    RightRail,
    Band(Band),
}

/// How a row is set.
#[derive(Clone, Debug, PartialEq, Eq)]
pub enum RowKind {
    Choice(Vec<String>),
    Toggle(bool),
    Size(Dim),
    Fixed,
}

/// A row of the settings, and what it is set to.
#[derive(Clone, Debug, PartialEq, Eq)]
pub struct SettingsRow {
    pub id: RowId,
    pub kind: RowKind,
    pub value: String,
}

/// A group of rows.
#[derive(Clone, Debug, PartialEq, Eq)]
pub struct SettingsGroup {
    pub rows: Vec<SettingsRow>,
}

/// The settings page: the group and the row its cursor is on, the option that
/// is marked where a choice is open, the theme the file names, and the page it
/// was opened from.
#[derive(Clone, Debug, PartialEq, Eq)]
pub struct Settings {
    pub group: usize,
    pub row: usize,
    pub open: Option<usize>,
    pub saved_theme: String,
    pub ret: Page,
}

/// Where the cursor of the settings is.
#[verifier::ext_equal]
#[derive(Clone, Copy, Debug, PartialEq, Eq, Structural)]
pub struct Place {
    pub group: usize,
    pub row: usize,
    pub open: Option<usize>,
}

impl Settings {
    /// Where the cursor is.
    pub open spec fn place(self) -> Place {
        Place { group: self.group, row: self.row, open: self.open }
    }

    /// Settings with the cursor elsewhere, and nothing else changed.
    pub open spec fn at(self, p: Place) -> Settings {
        Settings { group: p.group, row: p.row, open: p.open, ..self }
    }
}

/// The option that stands for no default agent.
pub open spec fn ask_every_time() -> Seq<char> {
    "ask every time"@
}

/// The change that taking an option of a choice makes.
pub open spec fn taken(id: RowId, chosen: Seq<char>) -> EditModel {
    match id {
        RowId::Theme => EditOf::Theme(chosen),
        RowId::DefaultAgent => if chosen == ask_every_time() {
            EditOf::DefaultAgent(None)
        } else {
            EditOf::DefaultAgent(Some(chosen))
        },
        _ => EditOf::Moved,
    }
}

fn take_option(id: RowId, chosen: String) -> (e: Edit)
    ensures
        e@ == taken(id, chosen@),
{
    match id {
        RowId::Theme => Edit::Theme(chosen),
        RowId::DefaultAgent => if same(chosen.as_str(), "ask every time") {
            Edit::DefaultAgent(None)
        } else {
            Edit::DefaultAgent(Some(chosen))
        },
        _ => Edit::Moved,
    }
}

/// What the switch of a row asks for.
pub open spec fn switched(id: RowId, on: bool) -> Option<EditModel> {
    match id {
        RowId::AutoAttach => Some(EditOf::AutoAttach(!on)),
        RowId::Links => Some(EditOf::Links(!on)),
        RowId::UpdateCheck => Some(EditOf::UpdateCheck(!on)),
        _ => None,
    }
}

fn flip(id: RowId, on: bool) -> (e: Option<Edit>)
    ensures
        match e {
            Some(e) => switched(id, on) == Some(e@),
            None => switched(id, on) is None,
        },
{
    match id {
        RowId::AutoAttach => Some(Edit::AutoAttach(!on)),
        RowId::Links => Some(Edit::Links(!on)),
        RowId::UpdateCheck => Some(Edit::UpdateCheck(!on)),
        _ => None,
    }
}

/// What nudging a row's size asks for.
pub open spec fn nudged(kind: RowKind, delta: i16) -> FlowModel {
    match kind {
        RowKind::Size(Dim::LeftRail) => FlowOf::SettingsEdit(
            EditOf::Geom(GeomStep::Rail { left: true, delta }),
        ),
        RowKind::Size(Dim::RightRail) => FlowOf::SettingsEdit(
            EditOf::Geom(GeomStep::Rail { left: false, delta }),
        ),
        RowKind::Size(Dim::Band(band)) => FlowOf::SettingsEdit(
            EditOf::Geom(GeomStep::Band { band, delta }),
        ),
        _ => FlowOf::SettingsEdit(EditOf::Moved),
    }
}

/// Nudges the size of a row.
pub fn nudge(kind: &RowKind, delta: i16) -> (f: Flow)
    ensures
        f@ == nudged(*kind, delta),
{
    match kind {
        RowKind::Size(Dim::LeftRail) => Flow::SettingsEdit(
            Edit::Geom(GeomStep::Rail { left: true, delta }),
        ),
        RowKind::Size(Dim::RightRail) => Flow::SettingsEdit(
            Edit::Geom(GeomStep::Rail { left: false, delta }),
        ),
        RowKind::Size(Dim::Band(band)) => Flow::SettingsEdit(
            Edit::Geom(GeomStep::Band { band: *band, delta }),
        ),
        _ => Flow::SettingsEdit(Edit::Moved),
    }
}

/// The smaller of two places.
pub open spec fn least(a: int, b: int) -> int {
    if a < b {
        a
    } else {
        b
    }
}

/// The last place of a list of `n`; an empty one has its first.
pub open spec fn last_of(n: int) -> int {
    if n > 0 {
        n - 1
    } else {
        0
    }
}

/// The option of a choice that is what the row is set to, or the first.
pub open spec fn current_option(row: SettingsRow) -> usize {
    match row.kind {
        RowKind::Choice(options) => match first_index(texts(options@), row.value@) {
            Some(i) => i as usize,
            None => 0,
        },
        _ => 0,
    }
}

fn find_current(options: &Vec<String>, value: &String) -> (r: usize)
    ensures
        r == (match first_index(texts(options@), value@) {
            Some(i) => i as usize,
            None => 0,
        }),
{
    match position(options, value.as_str()) {
        Some(i) => i,
        None => 0,
    }
}

/// What a key does on a row of the settings, with the cursor at `p`. Enter and
/// space both flip a switch, and a key that is taken is an edit at least of
/// where the cursor is.
pub open spec fn row_key(
    k: KeyEvent,
    v: BenchModel,
    p: Place,
    ret: Page,
    row: SettingsRow,
    rows: int,
    groups: int,
) -> (BenchModel, Place, Option<FlowModel>) {
    let moved = Some(FlowOf::SettingsEdit(EditOf::<Seq<char>>::Moved));
    let flipped = match row.kind {
        RowKind::Toggle(on) => match switched(row.id, on) {
            Some(e) => Some(FlowOf::SettingsEdit(e)),
            None => moved,
        },
        _ => moved,
    };
    let down = (
        v,
        match (p.open, row.kind) {
            (Some(o), RowKind::Choice(options)) => Place {
                open: Some(least(o + 1, last_of(options@.len() as int)) as usize),
                ..p
            },
            _ => Place { row: least(p.row + 1, last_of(rows)) as usize, ..p },
        },
        moved,
    );
    let up = (
        v,
        match (p.open, row.kind) {
            (Some(o), RowKind::Choice(options)) => Place {
                open: Some(
                    if o > 0 {
                        (o - 1) as usize
                    } else {
                        0
                    },
                ),
                ..p
            },
            _ => Place {
                row: if p.row > 0 {
                    (p.row - 1) as usize
                } else {
                    0
                },
                ..p
            },
        },
        moved,
    );
    let shut = if p.open is Some {
        (v, Place { open: None, ..p }, moved)
    } else {
        (BenchOf { page: ret, ..v }, p, moved)
    };
    match k.code {
        KeyCode::Down => down,
        KeyCode::Up => up,
        KeyCode::Tab => if p.open is None {
            (
                v,
                Place {
                    group: if p.group + 1 < groups {
                        (p.group + 1) as usize
                    } else {
                        0
                    },
                    row: 0,
                    ..p
                },
                moved,
            )
        } else {
            (v, p, None)
        },
        KeyCode::BackTab => if p.open is None {
            (
                v,
                Place {
                    group: if p.group > 0 {
                        (p.group - 1) as usize
                    } else {
                        (groups - 1) as usize
                    },
                    row: 0,
                    ..p
                },
                moved,
            )
        } else {
            (v, p, None)
        },
        KeyCode::Enter => match (p.open, row.kind) {
            (Some(o), RowKind::Choice(options)) => if o < options@.len() {
                (
                    v,
                    Place { open: None, ..p },
                    Some(FlowOf::SettingsEdit(taken(row.id, options@[o as int]@))),
                )
            } else {
                (v, p, None)
            },
            (None, RowKind::Choice(options)) => (
                v,
                Place { open: Some(current_option(row)), ..p },
                moved,
            ),
            _ => (v, p, flipped),
        },
        KeyCode::Left => (v, p, Some(nudged(row.kind, (-2) as i16))),
        KeyCode::Right => (v, p, Some(nudged(row.kind, 2))),
        KeyCode::Esc => shut,
        KeyCode::Char(c) => if c == 'j' {
            down
        } else if c == 'k' {
            up
        } else if c == ' ' {
            (v, p, flipped)
        } else if c == '-' || c == 'h' {
            (v, p, Some(nudged(row.kind, (-2) as i16)))
        } else if c == '+' || c == '=' || c == 'l' {
            (v, p, Some(nudged(row.kind, 2)))
        } else if c == '0' {
            (
                v,
                p,
                match row.kind {
                    RowKind::Size(Dim::Band(b)) => Some(
                        FlowOf::SettingsEdit(EditOf::Geom(GeomStep::AutoBand(b))),
                    ),
                    _ => moved,
                },
            )
        } else if c == 'q' {
            shut
        } else {
            (v, p, None)
        },
        _ => (v, p, None),
    }
}

/// A place with its group and row among those there are.
pub open spec fn placed(p: Place, groups: Seq<SettingsGroup>) -> Place {
    let group = least(p.group as int, groups.len() - 1);
    Place {
        group: group as usize,
        row: least(p.row as int, last_of(groups[group].rows@.len() as int)) as usize,
        ..p
    }
}

/// What a key does on the settings page. The cursor is brought back among the
/// rows there are before the key is read.
pub open spec fn settings_key(
    k: KeyEvent,
    v: BenchModel,
    p: Place,
    ret: Page,
    groups: Seq<SettingsGroup>,
) -> (BenchModel, Place, Option<FlowModel>) {
    if groups.len() == 0 {
        (v, p, None)
    } else {
        let at = placed(p, groups);
        let rows = groups[at.group as int].rows@;
        if rows.len() == 0 {
            (v, at, None)
        } else {
            row_key(
                k,
                v,
                at,
                ret,
                rows[at.row as int],
                rows.len() as int,
                groups.len() as int,
            )
        }
    }
}

fn flip_row(row: &SettingsRow) -> (f: Flow)
    ensures
        f@ == (match row.kind {
            RowKind::Toggle(on) => match switched(row.id, on) {
                Some(e) => FlowOf::SettingsEdit(e),
                None => FlowOf::SettingsEdit(EditOf::Moved),
            },
            _ => FlowOf::SettingsEdit(EditOf::Moved),
        }),
{
    match &row.kind {
        RowKind::Toggle(on) => match flip(row.id, *on) {
            Some(e) => Flow::SettingsEdit(e),
            None => Flow::SettingsEdit(Edit::Moved),
        },
        _ => Flow::SettingsEdit(Edit::Moved),
    }
}

fn press_row(
    k: KeyEvent,
    view: &mut Bench,
    st: &mut Settings,
    row: &SettingsRow,
    last: usize,
    n: usize,
) -> (r: Option<Flow>)
    requires
        old(st).group < n,
        old(st).row <= last,
    ensures
        ({
            let after = row_key(
                k,
                old(view)@,
                old(st).place(),
                old(st).ret,
                *row,
                last + 1,
                n as int,
            );
            &&& final(view)@ == after.0
            &&& *final(st) == old(st).at(after.1)
            &&& opt_flow(r) == after.2
        }),
{
    match k.code {
        KeyCode::Down | KeyCode::Char('j') => {
            match (st.open, &row.kind) {
                (Some(o), RowKind::Choice(options)) => {
                    let most: usize = if options.len() > 0 {
                        options.len() - 1
                    } else {
                        0
                    };
                    st.open = Some(
                        if o < most {
                            o + 1
                        } else {
                            most
                        },
                    );
                },
                _ => {
                    st.row = if st.row < last {
                        st.row + 1
                    } else {
                        last
                    };
                },
            }
            Some(Flow::SettingsEdit(Edit::Moved))
        },
        KeyCode::Up | KeyCode::Char('k') => {
            match (st.open, &row.kind) {
                (Some(o), RowKind::Choice(_)) => {
                    st.open = Some(
                        if o > 0 {
                            o - 1
                        } else {
                            0
                        },
                    );
                },
                _ => {
                    st.row = if st.row > 0 {
                        st.row - 1
                    } else {
                        0
                    };
                },
            }
            Some(Flow::SettingsEdit(Edit::Moved))
        },
        KeyCode::Tab => {
            if st.open.is_some() {
                return None;
            }
            st.group = if st.group < n - 1 {
                st.group + 1
            } else {
                0
            };
            st.row = 0;
            Some(Flow::SettingsEdit(Edit::Moved))
        },
        KeyCode::BackTab => {
            if st.open.is_some() {
                return None;
            }
            st.group = if st.group > 0 {
                st.group - 1
            } else {
                n - 1
            };
            st.row = 0;
            Some(Flow::SettingsEdit(Edit::Moved))
        },
        KeyCode::Enter => match (st.open, &row.kind) {
            (Some(o), RowKind::Choice(options)) => {
                if o >= options.len() {
                    return None;
                }
                let chosen = options[o].clone();
                st.open = None;
                Some(Flow::SettingsEdit(take_option(row.id, chosen)))
            },
            (None, RowKind::Choice(options)) => {
                st.open = Some(find_current(options, &row.value));
                Some(Flow::SettingsEdit(Edit::Moved))
            },
            _ => Some(flip_row(row)),
        },
        KeyCode::Char(' ') => Some(flip_row(row)),
        KeyCode::Char('-') | KeyCode::Char('h') | KeyCode::Left => Some(nudge(&row.kind, -2)),
        KeyCode::Char('+') | KeyCode::Char('=') | KeyCode::Char('l') | KeyCode::Right => Some(
            nudge(&row.kind, 2),
        ),
        KeyCode::Char('0') => match &row.kind {
            RowKind::Size(Dim::Band(b)) => Some(
                Flow::SettingsEdit(Edit::Geom(GeomStep::AutoBand(*b))),
            ),
            _ => Some(Flow::SettingsEdit(Edit::Moved)),
        },
        KeyCode::Esc | KeyCode::Char('q') => {
            if st.open.is_some() {
                st.open = None;
                return Some(Flow::SettingsEdit(Edit::Moved));
            }
            view.page = st.ret;
            Some(Flow::SettingsEdit(Edit::Moved))
        },
        _ => None,
    }
}

/// Does what a key does on the settings page.
pub fn handle_settings_key(
    k: KeyEvent,
    view: &mut Bench,
    st: &mut Settings,
    groups: &Vec<SettingsGroup>,
) -> (r: Option<Flow>)
    ensures
        ({
            let after = settings_key(k, old(view)@, old(st).place(), old(st).ret, groups@);
            &&& final(view)@ == after.0
            &&& *final(st) == old(st).at(after.1)
            &&& opt_flow(r) == after.2
        }),
{
    let n: usize = groups.len();
    if n == 0 {
        return None;
    }
    if st.group > n - 1 {
        st.group = n - 1;
    }
    let grp = &groups[st.group];
    let count: usize = grp.rows.len();
    let last: usize = if count > 0 {
        count - 1
    } else {
        0
    };
    if st.row > last {
        st.row = last;
    }
    if count == 0 {
        return None;
    }
    press_row(k, view, st, &grp.rows[st.row], last, n)
}

/// What lies under the pointer on the settings page: a group, an option of the
/// choice that is open, a row, or none of them.
#[derive(Clone, Copy, Debug, PartialEq, Eq, Structural)]
pub enum SettingsTarget {
    Group(usize),
    OptionRow(usize),
    Row(usize),
    Nothing,
}

/// What a click on the settings page does. On a row it does what enter would:
/// it opens a choice, flips a switch, and leaves a fact alone.
pub open spec fn settings_clicked(target: SettingsTarget, p: Place, groups: Seq<SettingsGroup>) -> (
    Place,
    Option<FlowModel>,
) {
    let moved = Some(FlowOf::SettingsEdit(EditOf::<Seq<char>>::Moved));
    if groups.len() == 0 {
        (p, None)
    } else {
        let group = least(p.group as int, groups.len() - 1);
        let rows = groups[group].rows@;
        match target {
            SettingsTarget::Group(i) => (Place { group: i, row: 0, open: None }, moved),
            SettingsTarget::OptionRow(o) => if rows.len() == 0 {
                (p, None)
            } else {
                let row = rows[least(p.row as int, rows.len() - 1)];
                match row.kind {
                    RowKind::Choice(options) => if o < options@.len() {
                        (
                            Place { open: None, ..p },
                            Some(FlowOf::SettingsEdit(taken(row.id, options@[o as int]@))),
                        )
                    } else {
                        (p, None)
                    },
                    _ => (p, None),
                }
            },
            SettingsTarget::Row(i) => if i >= rows.len() {
                (p, None)
            } else {
                let row = rows[i as int];
                let at = Place { group: group as usize, row: i, ..p };
                match row.kind {
                    RowKind::Choice(options) => (
                        Place { open: Some(current_option(row)), ..at },
                        moved,
                    ),
                    RowKind::Toggle(on) => match switched(row.id, on) {
                        Some(e) => (at, Some(FlowOf::SettingsEdit(e))),
                        None => (Place { open: None, ..at }, moved),
                    },
                    _ => (Place { open: None, ..at }, moved),
                }
            },
            SettingsTarget::Nothing => (p, None),
        }
    }
}

/// Does what a click on the settings page does.
pub fn settings_click(target: SettingsTarget, st: &mut Settings, groups: &Vec<SettingsGroup>) -> (r:
    Option<Flow>)
    ensures
        ({
            let after = settings_clicked(target, old(st).place(), groups@);
            &&& *final(st) == old(st).at(after.0)
            &&& opt_flow(r) == after.1
        }),
{
    let n: usize = groups.len();
    if n == 0 {
        return None;
    }
    let grp = if st.group < n {
        &groups[st.group]
    } else {
        &groups[n - 1]
    };
    let count: usize = grp.rows.len();
    match target {
        SettingsTarget::Group(i) => {
            st.group = i;
            st.row = 0;
            st.open = None;
            Some(Flow::SettingsEdit(Edit::Moved))
        },
        SettingsTarget::OptionRow(o) => {
            if count == 0 {
                return None;
            }
            let row = if st.row < count {
                &grp.rows[st.row]
            } else {
                &grp.rows[count - 1]
            };
            match &row.kind {
                RowKind::Choice(options) => {
                    if o >= options.len() {
                        return None;
                    }
                    let chosen = options[o].clone();
                    st.open = None;
                    Some(Flow::SettingsEdit(take_option(row.id, chosen)))
                },
                _ => None,
            }
        },
        SettingsTarget::Row(i) => {
            if i >= count {
                return None;
            }
            let row = &grp.rows[i];
            if st.group >= n {
                st.group = n - 1;
            }
            st.row = i;
            match &row.kind {
                RowKind::Choice(options) => {
                    st.open = Some(find_current(options, &row.value));
                    Some(Flow::SettingsEdit(Edit::Moved))
                },
                RowKind::Toggle(on) => match flip(row.id, *on) {
                    Some(e) => Some(Flow::SettingsEdit(e)),
                    None => {
                        st.open = None;
                        Some(Flow::SettingsEdit(Edit::Moved))
                    },
                },
                _ => {
                    st.open = None;
                    Some(Flow::SettingsEdit(Edit::Moved))
                },
            }
        },
        SettingsTarget::Nothing => None,
    }
}

/// The theme the screen wears: the one that is marked while the choice of
/// themes is open, and the one the file names otherwise.
pub open spec fn worn(p: Place, named: Seq<char>, groups: Seq<SettingsGroup>) -> Seq<char> {
    match p.open {
        None => named,
        Some(o) => if p.group < groups.len() && p.row < groups[p.group as int].rows@.len() {
            let row = groups[p.group as int].rows@[p.row as int];
            match (row.id, row.kind) {
                (RowId::Theme, RowKind::Choice(options)) => if o < options@.len() {
                    options@[o as int]@
                } else {
                    named
                },
                _ => named,
            }
        } else {
            named
        },
    }
}

/// The theme the screen wears.
pub fn settings_palette(st: &Settings, groups: &Vec<SettingsGroup>) -> (s: String)
    ensures
        s@ == worn(st.place(), st.saved_theme@, groups@),
{
    let o: usize = match st.open {
        Some(o) => o,
        None => {
            return st.saved_theme.clone();
        },
    };
    if st.group >= groups.len() || st.row >= groups[st.group].rows.len() {
        return st.saved_theme.clone();
    }
    let row = &groups[st.group].rows[st.row];
    if row.id != RowId::Theme {
        return st.saved_theme.clone();
    }
    match &row.kind {
        RowKind::Choice(options) => if o < options.len() {
            options[o].clone()
        } else {
            st.saved_theme.clone()
        },
        _ => st.saved_theme.clone(),
    }
}

/// A click on a row and enter on it are one: with no choice open they ask for
/// the same and leave the cursor in the same place.
pub proof fn a_clicked_row_is_an_entered_row(
    k: KeyEvent,
    v: BenchModel,
    p: Place,
    ret: Page,
    groups: Seq<SettingsGroup>,
    i: usize,
)
    requires
        k.code is Enter,
        p.open is None,
        groups.len() > 0,
        i < groups[least(p.group as int, groups.len() - 1)].rows@.len(),
    ensures
        ({
            let (after, place, flow) = settings_key(k, v, Place { row: i, ..p }, ret, groups);
            &&& settings_clicked(SettingsTarget::Row(i), p, groups) == (place, flow)
            &&& after == v
            &&& flow is Some
        }),
{
}

/// Every key that the settings page takes is an edit at least of where the
/// cursor is, so that the theme on screen follows it.
pub proof fn a_settings_key_is_an_edit(
    k: KeyEvent,
    v: BenchModel,
    p: Place,
    ret: Page,
    groups: Seq<SettingsGroup>,
)
    ensures
        settings_key(k, v, p, ret, groups).2 matches Some(f) ==> f is SettingsEdit,
{
}

/// Every way out of an open choice leads back to the theme the file names, and
/// opening the choice on the theme that is set changes nothing on screen.
pub proof fn a_preview_ends_with_its_list(
    v: BenchModel,
    p: Place,
    ret: Page,
    named: Seq<char>,
    groups: Seq<SettingsGroup>,
    k: KeyEvent,
)
    requires
        k.code is Esc,
        groups.len() > 0,
        groups[placed(p, groups).group as int].rows@.len() > 0,
    ensures
        worn(settings_key(k, v, p, ret, groups).1, named, groups) == named,
        p.open is Some ==> settings_key(k, v, p, ret, groups).0 == v,
        p.open is None ==> settings_key(k, v, p, ret, groups).0.page == ret,
{
}

/// A theme is written only by enter on an option of the open choice of themes:
/// no other key on the settings page asks for one.
pub proof fn only_enter_writes_a_theme(
    v: BenchModel,
    p: Place,
    ret: Page,
    groups: Seq<SettingsGroup>,
    k: KeyEvent,
)
    ensures
        settings_key(k, v, p, ret, groups).2 matches Some(FlowOf::SettingsEdit(EditOf::Theme(_)))
            ==> k.code is Enter && p.open is Some && settings_key(k, v, p, ret, groups).1.open is None,
{
}

/// Opening a choice marks the option the row is set to, where it is one of
/// them.
pub proof fn a_choice_opens_on_its_value(row: SettingsRow, options: Vec<String>)
    requires
        row.kind == RowKind::Choice(options),
        texts(options@).contains(row.value@),
        options@.len() <= usize::MAX,
    ensures
        current_option(row) < options@.len(),
        options@[current_option(row) as int]@ == row.value@,
{
    first_index_is_first(texts(options@), row.value@);
}

/// With the cursor on a row and no choice open, the arrows and their letters
/// move it one row down or up within its group, the tab key goes on to the
/// next group and back-tab to the one before, around the ends, each onto its
/// first row.
pub proof fn the_settings_are_walked_by_rows_and_groups(
    k: KeyEvent,
    v: BenchModel,
    p: Place,
    ret: Page,
    groups: Seq<SettingsGroup>,
)
    requires
        p.open is None,
        p.group < groups.len() <= usize::MAX,
        p.row < groups[p.group as int].rows@.len() <= usize::MAX,
    ensures
        ({
            let r = settings_key(k, v, p, ret, groups);
            let rows = groups[p.group as int].rows@.len();
            let lands = |group: int, row: int|
                r == (
                    v,
                    Place { group: group as usize, row: row as usize, open: None },
                    Some(FlowOf::SettingsEdit(EditOf::<Seq<char>>::Moved)),
                );
            &&& k.code is Down || k.code == KeyCode::Char('j') ==> lands(
                p.group as int,
                if p.row + 1 < rows {
                    p.row + 1
                } else {
                    rows - 1
                },
            )
            &&& k.code is Up || k.code == KeyCode::Char('k') ==> lands(
                p.group as int,
                if p.row > 0 {
                    p.row - 1
                } else {
                    0
                },
            )
            &&& k.code is Tab ==> lands(
                if p.group + 1 < groups.len() {
                    p.group + 1
                } else {
                    0
                },
                0,
            )
            &&& k.code is BackTab ==> lands(
                if p.group > 0 {
                    p.group - 1
                } else {
                    groups.len() - 1
                },
                0,
            )
            &&& k.code is Esc || k.code == KeyCode::Char('q') ==> r == (
                BenchOf { page: ret, ..v },
                p,
                Some(FlowOf::SettingsEdit(EditOf::<Seq<char>>::Moved)),
            )
        }),
{
}

/// While a choice is open the arrows and their letters move its mark among its
/// options, enter takes the one that is marked and closes it, and escape and
/// `q` close it without taking any.
pub proof fn an_open_choice_is_walked_and_taken_from(
    k: KeyEvent,
    v: BenchModel,
    p: Place,
    ret: Page,
    groups: Seq<SettingsGroup>,
    options: Vec<String>,
    o: usize,
)
    requires
        p.group < groups.len(),
        p.row < groups[p.group as int].rows@.len(),
        groups[p.group as int].rows@[p.row as int].kind == RowKind::Choice(options),
        p.open == Some(o),
        o < options@.len() <= usize::MAX,
    ensures
        ({
            let r = settings_key(k, v, p, ret, groups);
            let row = groups[p.group as int].rows@[p.row as int];
            let moved = Some(FlowOf::SettingsEdit(EditOf::<Seq<char>>::Moved));
            let chosen = options@[o as int]@;
            &&& k.code is Down || k.code == KeyCode::Char('j') ==> r == (
                v,
                Place {
                    open: Some(
                        if o + 1 < options@.len() {
                            (o + 1) as usize
                        } else {
                            o
                        },
                    ),
                    ..p
                },
                moved,
            )
            &&& k.code is Up || k.code == KeyCode::Char('k') ==> r == (
                v,
                Place {
                    open: Some(
                        if o > 0 {
                            (o - 1) as usize
                        } else {
                            0
                        },
                    ),
                    ..p
                },
                moved,
            )
            &&& k.code is Esc || k.code == KeyCode::Char('q') ==> r == (
                v,
                Place { open: None, ..p },
                moved,
            )
            &&& k.code is Enter ==> r.0 == v && r.1 == (Place { open: None, ..p })
            &&& k.code is Enter && row.id is Theme ==> r.2 == Some(
                FlowOf::SettingsEdit(EditOf::Theme(chosen)),
            )
            &&& k.code is Enter && row.id is DefaultAgent && chosen == "ask every time"@ ==> r.2
                == Some(FlowOf::SettingsEdit(EditOf::<Seq<char>>::DefaultAgent(None)))
            &&& k.code is Enter && row.id is DefaultAgent && chosen != "ask every time"@ ==> r.2
                == Some(FlowOf::SettingsEdit(EditOf::DefaultAgent(Some(chosen))))
            &&& k.code is Tab || k.code is BackTab ==> r.2 is None
        }),
{
}

/// Enter and space flip a switch: each asks for its own setting to be what it
/// is not.
pub proof fn a_switch_is_flipped_to_what_it_is_not(
    k: KeyEvent,
    v: BenchModel,
    p: Place,
    ret: Page,
    groups: Seq<SettingsGroup>,
    on: bool,
)
    requires
        k.code is Enter || k.code == KeyCode::Char(' '),
        p.group < groups.len(),
        p.row < groups[p.group as int].rows@.len(),
        groups[p.group as int].rows@[p.row as int].kind == RowKind::Toggle(on),
        p.open is None,
    ensures
        ({
            let r = settings_key(k, v, p, ret, groups);
            let id = groups[p.group as int].rows@[p.row as int].id;
            &&& r.0 == v
            &&& r.1 == p
            &&& id is AutoAttach ==> r.2 == Some(
                FlowOf::SettingsEdit(EditOf::<Seq<char>>::AutoAttach(!on)),
            )
            &&& id is Links ==> r.2 == Some(FlowOf::SettingsEdit(EditOf::<Seq<char>>::Links(!on)))
            &&& id is UpdateCheck ==> r.2 == Some(
                FlowOf::SettingsEdit(EditOf::<Seq<char>>::UpdateCheck(!on)),
            )
        }),
{
}

/// A size is nudged by two: left, `-` and `h` make it smaller, right, `+` and
/// `l` larger, and `0` lets a band find its own. Each rail and each band is
/// nudged as itself.
pub proof fn a_size_is_nudged_by_two(
    k: KeyEvent,
    v: BenchModel,
    p: Place,
    ret: Page,
    groups: Seq<SettingsGroup>,
    band: Band,
)
    requires
        p.group < groups.len(),
        p.row < groups[p.group as int].rows@.len(),
    ensures
        ({
            let r = settings_key(k, v, p, ret, groups);
            let kind = groups[p.group as int].rows@[p.row as int].kind;
            let less = k.code is Left || k.code == KeyCode::Char('-') || k.code == KeyCode::Char(
                'h',
            );
            let more = k.code is Right || k.code == KeyCode::Char('+') || k.code == KeyCode::Char(
                '=',
            ) || k.code == KeyCode::Char('l');
            let by: int = if less {
                -2
            } else {
                2
            };
            &&& less || more ==> r.0 == v && r.1 == p
            &&& (less || more) && kind == RowKind::Size(Dim::LeftRail) ==> (r.2 matches Some(
                FlowOf::SettingsEdit(EditOf::Geom(GeomStep::Rail { left, delta })),
            ) && left && delta == by)
            &&& (less || more) && kind == RowKind::Size(Dim::RightRail) ==> (r.2 matches Some(
                FlowOf::SettingsEdit(EditOf::Geom(GeomStep::Rail { left, delta })),
            ) && !left && delta == by)
            &&& (less || more) && kind == RowKind::Size(Dim::Band(band)) ==> (r.2 matches Some(
                FlowOf::SettingsEdit(EditOf::Geom(GeomStep::Band { band: it, delta })),
            ) && it == band && delta == by)
            &&& k.code == KeyCode::Char('0') && kind == RowKind::Size(Dim::Band(band)) ==> r.2
                == Some(
                FlowOf::SettingsEdit(EditOf::<Seq<char>>::Geom(GeomStep::AutoBand(band))),
            )
        }),
{
}

/// A click on a group goes to its first row, and one on an option of an open
/// choice takes that option and closes the choice.
pub proof fn a_click_on_the_settings_goes_there(
    p: Place,
    groups: Seq<SettingsGroup>,
    i: usize,
    options: Vec<String>,
)
    requires
        p.group < groups.len(),
        p.row < groups[p.group as int].rows@.len(),
    ensures
        settings_clicked(SettingsTarget::Group(i), p, groups) == (
            Place { group: i, row: 0, open: None },
            Some(FlowOf::SettingsEdit(EditOf::<Seq<char>>::Moved)),
        ),
        settings_clicked(SettingsTarget::Nothing, p, groups) == (p, None::<FlowModel>),
        ({
            let row = groups[p.group as int].rows@[p.row as int];
            row.kind == RowKind::Choice(options) && i < options@.len() ==> {
                let r = settings_clicked(SettingsTarget::OptionRow(i), p, groups);
                &&& r.0 == (Place { open: None, ..p })
                &&& row.id is Theme ==> r.1 == Some(
                    FlowOf::SettingsEdit(EditOf::Theme(options@[i as int]@)),
                )
                &&& row.id is DefaultAgent && options@[i as int]@ != "ask every time"@ ==> r.1
                    == Some(
                    FlowOf::SettingsEdit(EditOf::DefaultAgent(Some(options@[i as int]@))),
                )
            }
        }),
{
}

/// A cursor past the groups or the rows there are is read as on the last.
pub proof fn a_stray_cursor_is_read_as_on_the_last(p: Place, groups: Seq<SettingsGroup>)
    requires
        groups.len() > 0,
    ensures
        ({
            let at = placed(p, groups);
            &&& p.group < groups.len() ==> at.group == p.group
            &&& p.group >= groups.len() && groups.len() <= usize::MAX ==> at.group == groups.len()
                - 1
            &&& p.group < groups.len() && p.row < groups[p.group as int].rows@.len() ==> at.row
                == p.row
            &&& p.group < groups.len() && p.row >= groups[p.group as int].rows@.len()
                && groups[p.group as int].rows@.len() > 0 ==> at.row
                == groups[p.group as int].rows@.len() - 1
            &&& at.open == p.open
        }),
{
}

/// While the choice of themes is open the screen wears the theme that is
/// marked; with no choice open, or another, it wears the one the file names.
pub proof fn the_marked_theme_is_worn(
    p: Place,
    named: Seq<char>,
    groups: Seq<SettingsGroup>,
    options: Vec<String>,
    o: usize,
)
    requires
        p.group < groups.len(),
        p.row < groups[p.group as int].rows@.len(),
        groups[p.group as int].rows@[p.row as int].kind == RowKind::Choice(options),
        o < options@.len(),
    ensures
        ({
            let row = groups[p.group as int].rows@[p.row as int];
            &&& p.open == Some(o) && row.id is Theme ==> worn(p, named, groups)
                == options@[o as int]@
            &&& p.open == Some(o) && row.id !is Theme ==> worn(p, named, groups) == named
            &&& p.open is None ==> worn(p, named, groups) == named
        }),
{
}

} // verus!
