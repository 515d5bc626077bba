//! The players of a game: a display name and the mark a player writes.

use vstd::prelude::*;

verus! {

/// One participant: the name shown in prompts and the mark placed on moves.
pub struct Player {
    pub name: String,
    pub mark: char,
}

/// A player as the contracts see one: the name as a sequence of characters,
/// and the mark.
pub struct PlayerView {
    pub name: Seq<char>,
    pub mark: char,
}

impl View for Player {
    type V = PlayerView;

    open spec fn view(&self) -> PlayerView {
        PlayerView { name: self.name@, mark: self.mark }
    }
}

impl Player {
    /// Builds a player from a name and a mark.
    pub fn new(name: String, mark: char) -> (p: Self)
        ensures
            p.name == name,
            p.mark == mark,
    {
        Player { name, mark }
    }

    /// The mark this player places.
    pub fn get_mark(&self) -> (m: char)
        ensures
            m == self.mark,
    {
        self.mark
    }
}

impl Clone for Player {
    /// A second player with the same name and mark.
    fn clone(&self) -> (p: Self)
        ensures
            p@ == self@,
    {
        Player { name: self.name.clone(), mark: self.mark }
    }
}

} // verus!
