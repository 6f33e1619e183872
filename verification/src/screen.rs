//! What a menu asks to have drawn: a titled, bordered list with one row
//! highlighted, and the part of the terminal it goes to.

use vstd::prelude::*;

verus! {

/// The part of the terminal that a list is drawn into.
#[derive(Clone, Copy, PartialEq, Eq, Debug, Structural)]
pub enum ViewportShape {
    /// The whole terminal.
    Full,
    /// The upper part of the terminal, split off from a lower part that
    /// stays empty.
    UpperPart,
}

/// The text of each of `items`, in order.
pub open spec fn texts(items: Seq<String>) -> Seq<Seq<char>> {
    items.map_values(|s: String| s@)
}

/// What a [`Screen`] stands for.
pub struct ScreenModel {
    pub title: Seq<char>,
    pub labels: Seq<Seq<char>>,
    pub highlighted: nat,
    pub shape: ViewportShape,
}

impl ScreenModel {
    /// The highlighted row is one of the rows.
    pub open spec fn wf(self) -> bool {
        self.highlighted < self.labels.len()
    }
}

/// One list to draw: its title, the label of each row from top to bottom,
/// the index of the highlighted row, and where on the terminal it goes.
#[derive(PartialEq, Eq, Debug)]
pub struct Screen {
    pub title: String,
    pub labels: Vec<String>,
    pub highlighted: usize,
    pub shape: ViewportShape,
}

impl View for Screen {
    type V = ScreenModel;

    open spec fn view(&self) -> ScreenModel {
        ScreenModel {
            title: self.title@,
            labels: texts(self.labels@),
            highlighted: self.highlighted as nat,
            shape: self.shape,
        }
    }
}

/// The mark drawn in front of the highlighted row, the same in every menu.
pub open spec fn highlight_mark() -> Seq<char> {
    seq!['>', '>', ' ']
}

/// The mark drawn in front of the highlighted row.
pub fn highlight_symbol() -> (mark: &'static str)
    ensures
        mark@ == highlight_mark(),
{
    let mark = ">> ";
    proof {
        reveal_strlit(">> ");
        assert(mark@ =~= highlight_mark());
    }
    mark
}

} // verus!
