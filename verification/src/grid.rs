//! The character grid: one rendered frame as lines of glyphs.

use vstd::prelude::*;

verus! {

/// An ordered sequence of text lines, produced fresh per frame by the glyph
/// mapper and immutable once returned; viewed as a sequence of character
/// sequences.
#[derive(Clone)]
pub struct CharacterGrid {
    pub lines: Vec<Vec<char>>,
}

impl View for CharacterGrid {
    type V = Seq<Seq<char>>;

    open spec fn view(&self) -> Seq<Seq<char>> {
        self.lines@.map_values(|line: Vec<char>| line@)
    }
}

impl CharacterGrid {
    /// Wraps ready-made lines as a grid.
    pub fn new(lines: Vec<Vec<char>>) -> (grid: CharacterGrid)
        ensures
            grid@.len() == lines@.len(),
            forall|i: int| 0 <= i < lines@.len() ==> grid@[i] == lines@[i]@,
    {
        CharacterGrid { lines }
    }

    /// Number of lines in the grid.
    pub fn line_count(&self) -> (n: usize)
        ensures
            n == self@.len(),
    {
        self.lines.len()
    }

    /// One line of the grid.
    pub fn line(&self, i: usize) -> (line: &Vec<char>)
        requires
            i < self@.len(),
        ensures
            line@ == self@[i as int],
    {
        &self.lines[i]
    }
}

} // verus!
