//! The selection cursor of the lap list, kept in ratatui's `ListState` so
//! that a renderer can be handed the very value it draws with.

use ratatui::widgets::ListState;
use vstd::prelude::*;

verus! {

/// ratatui's `ListState`, taken as an opaque value: what it holds is
/// spoken of through `list_selected` and `list_offset` alone.
#[verifier::external_type_specification]
#[verifier::external_body]
pub struct ExListState(ratatui::widgets::ListState);

/// The index that a `ListState` marks as selected, if any.
pub uninterp spec fn list_selected(state: ListState) -> Option<usize>;

/// The index of the first row that a `ListState` asks to be shown.
pub uninterp spec fn list_offset(state: ListState) -> usize;

/// `ListState::default` is the derived default: nothing selected, offset 0.
pub assume_specification[ <ListState as Default>::default ]() -> (state: ListState)
    ensures
        list_selected(state) == None::<usize>,
        list_offset(state) == 0,
;

/// `ListState::selected` hands back the stored selection.
pub assume_specification[ ListState::selected ](state: &ListState) -> (index: Option<usize>)
    ensures
        index == list_selected(*state),
;

/// `ListState::select` stores the given selection; clearing it also moves
/// the offset back to 0, setting it leaves the offset alone.
pub assume_specification[ ListState::select ](state: &mut ListState, index: Option<usize>)
    ensures
        list_selected(*final(state)) == index,
        list_offset(*final(state)) == if index.is_none() { 0 } else { list_offset(*old(state)) },
;

/// `ListState::with_selected` replaces the selection and keeps the offset.
pub assume_specification[ ListState::with_selected ](state: ListState, selected: Option<usize>) -> (next: ListState)
    ensures
        list_selected(next) == selected,
        list_offset(next) == list_offset(state),
;

} // verus!
