//! Where on the terminal a list goes: the whole viewport, or the upper part
//! of a split that the terminal library computes.

use crate::screen::ViewportShape;
use tui::layout::{Constraint, Direction, Layout, Rect};
use vstd::prelude::*;

verus! {

/// A rectangle of terminal cells: its upper left corner and its size.
#[derive(Clone, Copy, PartialEq, Eq, Debug, Structural)]
pub struct Area {
    pub x: u16,
    pub y: u16,
    pub width: u16,
    pub height: u16,
}

/// The share of the viewport's height, in percent, that the main menu's list
/// asks for.
pub const LIST_PERCENT: u16 = 80;

/// The share of the viewport's height, in percent, that is asked for below
/// the main menu's list and left empty.
pub const SPARE_PERCENT: u16 = 20;

/// The terminal library can split `area` into an upper and a lower part of
/// these shares: it reckons in 16 bits, so the area's right edge and each
/// share times the area's height must fit.
pub open spec fn can_split(area: Area, upper: u16, lower: u16) -> bool {
    &&& area.x + area.width <= u16::MAX
    &&& upper * area.height <= u16::MAX
    &&& lower * area.height <= u16::MAX
}

/// Whether the terminal library can split `area` into an upper and a lower
/// part of these shares.
pub fn check_can_split(area: Area, upper: u16, lower: u16) -> (fits: bool)
    ensures
        fits == can_split(area, upper, lower),
{
    let limit: u32 = 0xFFFF;
    let right: u32 = area.x as u32 + area.width as u32;
    let height: u32 = area.height as u32;
    assert(upper * area.height <= 0xFFFF * 0xFFFF) by (nonlinear_arith)
        requires
            upper <= 0xFFFF,
            area.height <= 0xFFFF,
    ;
    assert(lower * area.height <= 0xFFFF * 0xFFFF) by (nonlinear_arith)
        requires
            lower <= 0xFFFF,
            area.height <= 0xFFFF,
    ;
    right <= limit && upper as u32 * height <= limit && lower as u32 * height <= limit
}

/// Calls `tui::layout::Layout::split`, with a vertical layout of two
/// `Constraint::Percentage` parts and no margin. Nothing of this contract is
/// proved; it says of the library's source:
///
/// - It returns one rectangle for each constraint, so two.
/// - It requires of its solver that every part has the area's left edge and
///   width, and that the first part starts at the area's top: the first
///   part has the area's corner and width.
/// - It requires that every part ends no lower than the area does, where
///   the area's lower edge is cut off at 16 bits.
/// - It requires that the parts follow one another down to the area's lower
///   edge, and asks for each part's height to be its share, in hundredths,
///   of the area's height. Where the shares sum to 100 and the lower edge
///   lies within 16 bits, both heights can be had at once, and the solver
///   gives them; the library then cuts each to whole rows. Otherwise the
///   height is the solver's choice within the area, and no more is claimed
///   of it.
///
/// The `requires` keeps out the areas on which the library panics: those
/// where a share times the height overflows its 16-bit product, and those
/// whose right edge lies beyond 16 bits, for which its solver is handed
/// constraints that cannot all be met.
#[verifier::external_body]
fn split_vertically(area: Area, upper: u16, lower: u16) -> (parts: Vec<Area>)
    requires
        can_split(area, upper, lower),
    ensures
        parts@.len() == 2,
        parts@[0].x == area.x,
        parts@[0].y == area.y,
        parts@[0].width == area.width,
        parts@[0].y + parts@[0].height <= area.y + area.height,
        parts@[0].y + parts@[0].height <= u16::MAX,
        upper + lower == 100 && area.y + area.height <= u16::MAX ==> parts@[0].height == upper
            * area.height / 100,
{
    let rect = Rect { x: area.x, y: area.y, width: area.width, height: area.height };
    let layout = Layout::default().direction(Direction::Vertical).constraints(
        [Constraint::Percentage(upper), Constraint::Percentage(lower)].as_ref(),
    );
    layout.split(rect).iter().map(
        |part| Area { x: part.x, y: part.y, width: part.width, height: part.height },
    ).collect()
}

/// The upper part of a split: the first of `parts`, if there is one.
pub fn upper_part(parts: &Vec<Area>) -> (upper: Option<Area>)
    ensures
        parts@.len() == 0 ==> upper is None,
        parts@.len() > 0 ==> upper == Some(parts@[0]),
{
    if parts.len() > 0 {
        Some(parts[0])
    } else {
        None
    }
}

/// The rectangle that a list of this shape is drawn into, given the whole
/// viewport. A full list takes the viewport as it is. The upper part is the
/// first rectangle of the terminal library's split of the viewport into
/// `LIST_PERCENT` and `SPARE_PERCENT` of its height: it has the viewport's
/// corner and width and, cut to whole rows, `LIST_PERCENT` hundredths of its
/// height. There is none for a viewport that the library cannot split. For
/// a viewport whose lower edge lies beyond 16 bits the library fits the
/// parts in above that edge, and the height is what it chooses there.
pub fn list_area(shape: ViewportShape, viewport: Area) -> (area: Option<Area>)
    ensures
        shape == ViewportShape::Full ==> area == Some(viewport),
        shape == ViewportShape::UpperPart ==> (area is Some <==> can_split(
            viewport,
            LIST_PERCENT,
            SPARE_PERCENT,
        )),
        shape == ViewportShape::UpperPart ==> (area matches Some(a) ==> a.x == viewport.x && a.y
            == viewport.y && a.width == viewport.width),
        shape == ViewportShape::UpperPart ==> (area matches Some(a) ==> a.height
            <= viewport.height && a.y + a.height <= u16::MAX),
        shape == ViewportShape::UpperPart && viewport.y + viewport.height <= u16::MAX ==> (
        area matches Some(a) ==> a.height == LIST_PERCENT * viewport.height / 100),
{
    match shape {
        ViewportShape::Full => Some(viewport),
        ViewportShape::UpperPart => {
            if check_can_split(viewport, LIST_PERCENT, SPARE_PERCENT) {
                let parts = split_vertically(viewport, LIST_PERCENT, SPARE_PERCENT);
                upper_part(&parts)
            } else {
                None
            }
        },
    }
}

} // verus!
