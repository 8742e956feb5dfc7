use vstd::prelude::*;

verus! {

/// What a write leaves in a cell: an empty cell takes the player's mark,
/// an occupied cell keeps the mark it already holds (first write wins).
pub open spec fn written(cell: Option<bool>, value: bool) -> Option<bool> {
    if cell is None {
        Some(value)
    } else {
        cell
    }
}

/// One row of the board: three cells, each empty or holding a player's mark
/// (`true` = "X", `false` = "O").
#[derive(Clone, Copy)]
pub struct Vector {
    pub vector: [Option<bool>; 3],
}

impl Vector {
    /// The cell at position `el`.
    pub fn get(&self, el: usize) -> (r: &Option<bool>)
        requires
            el < 3,
        ensures
            *r == self.vector@[el as int],
    {
        &self.vector[el]
    }

    /// Places `value` at position `el` if that cell is empty; a write to an
    /// occupied cell is ignored, so the first mark is never overwritten.
    pub fn set(&mut self, el: usize, value: bool)
        requires
            el < 3,
        ensures
            final(self).vector@[el as int] == written(old(self).vector@[el as int], value),
            forall|i: int| 0 <= i < 3 && i != el ==> final(self).vector@[i] == old(self).vector@[i],
    {
        if self.vector[el].is_none() {
            self.vector[el] = Some(value);
        }
    }
}

impl Default for Vector {
    /// A fresh row has every cell empty.
    fn default() -> (r: Self)
        ensures
            forall|i: int| 0 <= i < 3 ==> r.vector@[i] is None,
    {
        Vector { vector: [None, None, None] }
    }
}

/// First write wins, stated over the cell model that `set` is specified
/// with: writing a player's mark into an empty cell occupies it, and a
/// second write to the same cell — with either player — leaves the first
/// mark unchanged.
pub proof fn lemma_first_write_wins(first: bool, second: bool)
    ensures
        written(None, first) == Some(first),
        written(written(None, first), second) == Some(first),
{
}

} // verus!
