//! The one place where chance enters: picking a cell for the computer.

use rand::seq::IteratorRandom;
use vstd::prelude::*;
use crate::grid::Cell;

verus! {

/// Picks one of `cells` at random, by `IteratorRandom::choose` of the rand
/// crate on the cells of the list, with the generator of the running thread.
/// Which cell comes back is not said. What is said holds of every pick:
/// nothing is picked exactly when the list is empty, and what is picked is
/// a cell of the list.
#[verifier::external_body]
pub(crate) fn choose_cell(cells: &Vec<Cell>) -> (choice: Option<Cell>)
    ensures
        choice is None <==> cells@.len() == 0,
        choice is Some ==> cells@.contains(choice.unwrap()),
{
    cells.iter().choose(&mut rand::thread_rng()).copied()
}

} // verus!
