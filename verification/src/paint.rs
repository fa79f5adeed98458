//! What a repaint draws and in which order, and where it leaves the cursor.
use vstd::prelude::*;

use crate::stage::{caret, down_notice, stage_caret, stage_down, Area, Grid, Stage, StageDown, StageDownOf, StageModel};
use crate::text::opt_text;
use crate::types::{Bench, BenchModel, Focus, Page};

verus! {

/// A layer of the screen.
#[derive(Clone, Copy, Debug, PartialEq, Eq, Structural)]
pub enum Layer {
    /// The bars, the rails and the page.
    Chrome,
    /// The cells of the pane.
    Pane,
    /// The notice that the pane is a photograph.
    Notice,
    /// The box that has the keyboard, where one has.
    Modal,
}

/// The layers of a screen from the bottom up. The notice dims the cells of the
/// pane, so it is drawn only over one.
pub open spec fn layers(pane: bool, down: bool) -> Seq<Layer> {
    if pane && down {
        seq![Layer::Chrome, Layer::Pane, Layer::Notice, Layer::Modal]
    } else if pane {
        seq![Layer::Chrome, Layer::Pane, Layer::Modal]
    } else {
        seq![Layer::Chrome, Layer::Modal]
    }
}

/// The layers of a screen from the bottom up: the pane where the page draws
/// one, and the notice over it where its connection is down.
pub fn compose(pane: bool, down: bool) -> (r: Vec<Layer>)
    ensures
        r@ == layers(pane, down),
{
    let mut r: Vec<Layer> = Vec::new();
    r.push(Layer::Chrome);
    if pane {
        r.push(Layer::Pane);
        if down {
            r.push(Layer::Notice);
        }
    }
    r.push(Layer::Modal);
    r
}

/// The layer that shows at a cell, when `covers` says which layers draw on it:
/// the last of them.
pub open spec fn showing(ls: Seq<Layer>, covers: spec_fn(Layer) -> bool) -> Option<Layer>
    decreases ls.len(),
{
    if ls.len() == 0 {
        None
    } else if covers(ls.last()) {
        Some(ls.last())
    } else {
        showing(ls.drop_last(), covers)
    }
}

/// Nothing is painted over a box, the notice shows over the pane, and the pane
/// over what it stands in.
pub proof fn nothing_is_painted_over_a_box(pane: bool, down: bool, covers: spec_fn(Layer) -> bool)
    ensures
        covers(Layer::Modal) ==> showing(layers(pane, down), covers) == Some(Layer::Modal),
        !covers(Layer::Modal) && pane && down && covers(Layer::Notice) ==> showing(
            layers(pane, down),
            covers,
        ) == Some(Layer::Notice),
        !covers(Layer::Modal) && !covers(Layer::Notice) && pane && covers(Layer::Pane) ==> showing(
            layers(pane, down),
            covers,
        ) == Some(Layer::Pane),
        !pane ==> showing(layers(pane, down), covers) != Some(Layer::Pane) && showing(
            layers(pane, down),
            covers,
        ) != Some(Layer::Notice),
{
    reveal_with_fuel(showing, 5);
    let ls = layers(pane, down);
    assert(layers(true, true).drop_last() =~= seq![Layer::Chrome, Layer::Pane, Layer::Notice]);
    assert(layers(true, true).drop_last().drop_last() =~= seq![Layer::Chrome, Layer::Pane]);
    assert(layers(true, false).drop_last() =~= seq![Layer::Chrome, Layer::Pane]);
    assert(layers(false, down).drop_last() =~= seq![Layer::Chrome]);
    assert(seq![Layer::Chrome, Layer::Pane].drop_last() =~= seq![Layer::Chrome]);
    assert(seq![Layer::Chrome].drop_last() =~= Seq::<Layer>::empty());
}

/// The terminal's cursor after a repaint. With the keyboard on the pane it has
/// the shape the terminal is set to; elsewhere it is steady and underlined,
/// and so claims no keys that it would not get.
#[derive(Clone, Copy, Debug, PartialEq, Eq, Structural)]
pub struct Caret {
    pub x: u16,
    pub y: u16,
    pub typed_into: bool,
}

/// What a repaint is to do.
#[verifier::ext_equal]
#[derive(Clone, Debug, PartialEq, Eq)]
pub struct RepaintOf<S, L> {
    /// The terminal is cleared first: what was painted has another size, so
    /// nothing of it can be kept.
    pub clear: bool,
    /// The notice over the pane.
    pub down: Option<StageDownOf<S>>,
    /// What is drawn, from the bottom up.
    pub layers: L,
    /// Where the cursor is left. It is hidden while the cells are written, and
    /// stays hidden where there is none.
    pub caret: Option<Caret>,
}

pub type Repaint = RepaintOf<String, Vec<Layer>>;

pub type RepaintModel = RepaintOf<Seq<char>, Seq<Layer>>;

/// A notice as a model.
pub open spec fn opt_down(d: Option<StageDown>) -> Option<StageDownOf<Seq<char>>> {
    match d {
        Some(n) => Some(
            StageDownOf { host: opt_text(n.host), secs: n.secs, has_frame: n.has_frame },
        ),
        None => None,
    }
}

impl View for RepaintOf<String, Vec<Layer>> {
    type V = RepaintModel;

    open spec fn view(&self) -> RepaintModel {
        RepaintOf {
            clear: self.clear,
            down: opt_down(self.down),
            layers: self.layers@,
            caret: self.caret,
        }
    }
}

/// What a repaint is to do: of `painted`, which is on the terminal, a screen of
/// the size `area` is made, with the pane at `at` where the page draws one.
pub open spec fn repainted(
    painted: Area,
    area: Area,
    v: BenchModel,
    stage: Option<StageModel>,
    hosts: Seq<Option<String>>,
    at: Area,
    now: u64,
) -> RepaintModel {
    let drawn = v.page.shows_pane() && stage is Some;
    let down = match stage {
        Some(s) => down_notice(s, hosts, now),
        None => None,
    };
    let place = match stage {
        Some(s) => caret(
            v,
            s.cursor,
            if drawn {
                Some(s.buf.area)
            } else {
                None
            },
            at,
        ),
        None => None,
    };
    RepaintOf {
        clear: painted != area,
        down,
        layers: layers(drawn, down is Some),
        caret: match place {
            Some((x, y)) => Some(Caret { x, y, typed_into: v.focus is Stage }),
            None => None,
        },
    }
}

/// The pane that a page draws: that on the stage, on the pages with a place
/// for one.
pub fn pane_on(page: Page, stage: Option<&Stage>) -> (r: Option<&Grid>)
    ensures
        match r {
            Some(g) => page.shows_pane() && stage is Some && *g == stage->0.buf,
            None => !page.shows_pane() || stage is None,
        },
{
    match stage {
        Some(s) if page.shows_pane() => Some(&s.buf),
        _ => None,
    }
}

/// Settles what a repaint is to do.
pub fn paint(
    painted: Area,
    area: Area,
    view: &Bench,
    stage: Option<&Stage>,
    hosts: &Vec<Option<String>>,
    at: Area,
    now: u64,
) -> (r: Repaint)
    requires
        at.x + at.width <= u16::MAX,
        at.y + at.height <= u16::MAX,
    ensures
        r@ == repainted(
            painted,
            area,
            view@,
            match stage {
                Some(s) => Some(s@),
                None => None,
            },
            hosts@,
            at,
            now,
        ),
{
    let drawn = pane_on(view.page, stage);
    let down = match stage {
        Some(s) => stage_down(s, hosts, now),
        None => None,
    };
    let place = stage_caret(view, stage, drawn, at);
    let typed_into = view.focus == Focus::Stage;
    RepaintOf {
        clear: painted != area,
        layers: compose(drawn.is_some(), down.is_some()),
        down,
        caret: match place {
            Some((x, y)) => Some(Caret { x, y, typed_into }),
            None => None,
        },
    }
}

/// The cursor is on the screen of a pane and nowhere else: a repaint leaves it
/// hidden while a box has the keyboard and on every page that draws no pane,
/// and otherwise puts it inside the place of the pane.
pub proof fn the_cursor_is_on_a_pane_or_hidden(
    painted: Area,
    area: Area,
    v: BenchModel,
    stage: Option<StageModel>,
    hosts: Seq<Option<String>>,
    at: Area,
    now: u64,
)
    requires
        at.x + at.width <= u16::MAX,
        at.y + at.height <= u16::MAX,
    ensures
        ({
            let r = repainted(painted, area, v, stage, hosts, at, now);
            &&& v.overlay is Some || !v.page.shows_pane() || stage is None ==> r.caret is None
            &&& match r.caret {
                Some(c) => at.x <= c.x < at.x + at.width && at.y <= c.y < at.y + at.height
                    && r.layers.contains(Layer::Pane),
                None => true,
            }
        }),
{
    let r = repainted(painted, area, v, stage, hosts, at, now);
    if r.caret is Some {
        assert(r.layers[1] == Layer::Pane);
    }
}

/// What is drawn: the bars at the bottom, the pane over them where one is
/// drawn, its notice over that where it is down, and a box on top.
pub proof fn the_layers_lie_in_their_order(pane: bool, down: bool)
    ensures
        layers(pane, down)[0] == Layer::Chrome,
        layers(pane, down).last() == Layer::Modal,
        layers(pane, down).contains(Layer::Pane) <==> pane,
        layers(pane, down).contains(Layer::Notice) <==> pane && down,
        pane ==> layers(pane, down)[1] == Layer::Pane,
        pane && down ==> layers(pane, down)[2] == Layer::Notice,
{
    let ls = layers(pane, down);
    if pane {
        assert(ls[1] == Layer::Pane);
    }
    if pane && down {
        assert(ls[2] == Layer::Notice);
    }
}

/// A terminal is cleared where what is painted on it has another size, and
/// only then. The pane is drawn on the pages that show one, the notice is the
/// stage's own, and the cursor is typed into where the keyboard is on the
/// stage.
pub proof fn a_repaint_draws_what_there_is(
    painted: Area,
    area: Area,
    v: BenchModel,
    s: StageModel,
    hosts: Seq<Option<String>>,
    at: Area,
    now: u64,
)
    ensures
        ({
            let r = repainted(painted, area, v, Some(s), hosts, at, now);
            let none = repainted(painted, area, v, None, hosts, at, now);
            let shows = v.page is Booth || v.page is Agents || v.page is Docker;
            &&& r.clear <==> painted != area
            &&& none.clear <==> painted != area
            &&& r.down == down_notice(s, hosts, now)
            &&& none.down is None
            &&& r.layers.contains(Layer::Pane) <==> shows
            &&& !none.layers.contains(Layer::Pane)
            &&& r.layers.contains(Layer::Notice) <==> shows && down_notice(s, hosts, now) is Some
            &&& shows ==> (match caret(v, s.cursor, Some(s.buf.area), at) {
                Some((x, y)) => r.caret == Some(Caret { x, y, typed_into: v.focus is Stage }),
                None => r.caret is None,
            })
            &&& none.caret is None
        }),
{
    let shows = v.page.shows_pane();
    let down = down_notice(s, hosts, now) is Some;
    the_layers_lie_in_their_order(shows, down);
    the_layers_lie_in_their_order(false, false);
}

} // verus!
