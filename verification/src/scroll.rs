//! The scroll position of the disassembly pane, a
//! `tui_scrollview::ScrollViewState`.

use vstd::prelude::*;

verus! {

#[verifier::external_type_specification]
#[verifier::external_body]
pub struct ExScrollViewState(tui_scrollview::ScrollViewState);

/// The column and the row that a scroll view is shifted by.
pub uninterp spec fn scroll_position(state: tui_scrollview::ScrollViewState) -> (u16, u16);

/// `ScrollViewState::new`: a view that is not shifted.
#[verifier::external_body]
pub(crate) fn scroll_view_new() -> (state: tui_scrollview::ScrollViewState)
    ensures
        scroll_position(state) == (0u16, 0u16),
{
    tui_scrollview::ScrollViewState::new()
}

/// One row up, unless the view is at the top.
pub open spec fn one_up(position: (u16, u16)) -> (u16, u16) {
    (position.0, if position.1 > 0 { (position.1 - 1) as u16 } else { 0u16 })
}

/// One row down, unless the row number is at its greatest.
pub open spec fn one_down(position: (u16, u16)) -> (u16, u16) {
    (position.0, if position.1 < u16::MAX { (position.1 + 1) as u16 } else { u16::MAX })
}

/// `ScrollViewState::scroll_up`: the view moves up by one row and stays in
/// its column; at the top it stays where it is.
#[verifier::external_body]
pub(crate) fn scroll_view_up(state: &mut tui_scrollview::ScrollViewState)
    ensures
        scroll_position(*final(state)) == one_up(scroll_position(*old(state))),
{
    state.scroll_up()
}

/// `ScrollViewState::scroll_down`: the view moves down by one row and stays
/// in its column; the row number does not pass its greatest value.
#[verifier::external_body]
pub(crate) fn scroll_view_down(state: &mut tui_scrollview::ScrollViewState)
    ensures
        scroll_position(*final(state)) == one_down(scroll_position(*old(state))),
{
    state.scroll_down()
}

} // verus!
