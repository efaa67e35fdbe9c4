//! One grid position: what lies in it, and what hides it.

use vstd::prelude::*;

verus! {

/// What a cell holds: a mine, or the number of mines among its eight
/// neighbours.
#[derive(Debug, Clone, Copy, PartialEq, Eq)]
pub enum TileContent {
    Empty(u8),
    Bomb,
}

/// The marking on a cell that is still hidden.
#[derive(Debug, Clone, Copy, PartialEq, Eq)]
pub enum TileCover {
    Empty,
    QuestionMark,
    FlagMark,
}

/// The marking that follows `c` in the cycle blank, flag, question mark.
pub open spec fn next_cover_of(c: TileCover) -> TileCover {
    match c {
        TileCover::Empty => TileCover::FlagMark,
        TileCover::FlagMark => TileCover::QuestionMark,
        TileCover::QuestionMark => TileCover::Empty,
    }
}

impl TileCover {
    pub fn next_cover(&self) -> (next: Self)
        ensures
            next == next_cover_of(*self),
    {
        match self {
            Self::Empty => Self::FlagMark,
            Self::FlagMark => Self::QuestionMark,
            Self::QuestionMark => Self::Empty,
        }
    }
}

/// A cell: its content, and its cover while it is hidden (`None` once
/// it has been revealed).
#[derive(Debug, Clone, Copy, PartialEq, Eq)]
pub struct Tile {
    pub content: TileContent,
    pub cover: Option<TileCover>,
}

/// `t` with its marking advanced one step; a revealed cell stays as it is.
pub open spec fn toggled(t: Tile) -> Tile {
    match t.cover {
        Some(c) => Tile { content: t.content, cover: Some(next_cover_of(c)) },
        None => t,
    }
}

/// `t` with its cover taken off.
pub open spec fn revealed(t: Tile) -> Tile {
    Tile { content: t.content, cover: None }
}

/// A hidden cell that a reveal may open: covered, and not flagged.
pub open spec fn openable(t: Tile) -> bool {
    t.cover is Some && t.cover != Some(TileCover::FlagMark)
}

impl Tile {
    pub open spec fn blank_spec() -> Tile {
        Tile { content: TileContent::Empty(0), cover: Some(TileCover::Empty) }
    }

    /// A hidden, unmarked cell with no mine and no count yet.
    #[verifier::when_used_as_spec(blank_spec)]
    pub fn blank() -> (t: Tile)
        ensures
            t == Tile::blank_spec(),
    {
        Tile { content: TileContent::Empty(0), cover: Some(TileCover::Empty) }
    }

    /// Advances the marking of a hidden cell; does nothing to a revealed one.
    pub fn change_cover(&mut self)
        ensures
            *final(self) == toggled(*old(self)),
    {
        match self.cover {
            Some(cover) => {
                self.cover = Some(cover.next_cover());
            },
            None => {},
        }
    }

    pub fn is_bomb(&self) -> (b: bool)
        ensures
            b == (self.content is Bomb),
    {
        match self.content {
            TileContent::Bomb => true,
            TileContent::Empty(_) => false,
        }
    }

    pub fn is_covered(&self) -> (b: bool)
        ensures
            b == (self.cover is Some),
    {
        match self.cover {
            Some(_) => true,
            None => false,
        }
    }

    /// Whether a reveal may open this cell.
    pub fn is_openable(&self) -> (b: bool)
        ensures
            b == openable(*self),
    {
        match self.cover {
            Some(TileCover::FlagMark) => false,
            Some(_) => true,
            None => false,
        }
    }
}

} // verus!
