//! Rendering a priced tree as indented lines, depth first, parent first.
use vstd::prelude::*;

verus! {

/// How far a child's line is indented beyond its parent's.
pub const DEPTH_STEP: usize = 2;

/// Which shape of node a line stands for.
#[derive(Clone, Copy, Debug, PartialEq, Eq, Structural)]
pub enum NodeKind {
    Item,
    Bundle,
}

/// One rendered node: its indentation depth, shape, name, total and strategy name.
pub struct RenderLine {
    pub depth: usize,
    pub kind: NodeKind,
    pub name: String,
    pub total: i64,
    pub strategy: &'static str,
}

/// A rendered line as plain values.
pub type LineView = (int, NodeKind, Seq<char>, int, Seq<char>);

impl View for RenderLine {
    type V = LineView;

    open spec fn view(&self) -> LineView {
        (self.depth as int, self.kind, self.name@, self.total as int, self.strategy@)
    }
}

/// The views of a sequence of lines.
pub open spec fn views(s: Seq<RenderLine>) -> Seq<LineView> {
    s.map_values(|l: RenderLine| l@)
}

/// Views distribute over concatenation.
pub proof fn lemma_views_concat(a: Seq<RenderLine>, b: Seq<RenderLine>)
    ensures
        views(a + b) == views(a) + views(b),
{
    assert(views(a + b) =~= views(a) + views(b));
}

/// An amount in hundredths split for display: whether it is negative, the
/// whole units and the hundredths of its magnitude.
pub fn split_amount(amount: i64) -> (r: (bool, u64, u64))
    ensures
        r.0 == (amount < 0),
        r.2 < 100,
        r.1 * 100 + r.2 == if amount < 0 { -amount } else { amount as int },
{
    let magnitude: u64 = if amount < 0 {
        (-(amount as i128)) as u64
    } else {
        amount as u64
    };
    (amount < 0, magnitude / 100, magnitude % 100)
}

} // verus!
