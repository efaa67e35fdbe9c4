//! The menu: two selectors, each cycling over three tiers, and the
//! table that turns a selection into a board configuration.

use vstd::prelude::*;

verus! {

/// Board size tiers, in menu order.
#[derive(Debug, Clone, Copy, PartialEq, Eq)]
pub enum MapSize {
    Large,
    Normal,
    Small,
}

/// Difficulty tiers, in menu order.
#[derive(Debug, Clone, Copy, PartialEq, Eq)]
pub enum GameLevel {
    Hard,
    Normal,
    Easy,
}

/// The selector that up and down adjust.
#[derive(Debug, Clone, Copy, PartialEq, Eq)]
pub enum MenuKind {
    MapSize,
    GameLevel,
}

/// A direction, for the cursor on the board or the highlight in the menu.
#[derive(Debug, Clone, Copy, PartialEq, Eq)]
pub enum Movement {
    Up,
    Down,
    Left,
    Right,
}

impl MapSize {
    /// The tier above in the menu; the top wraps to the bottom.
    pub open spec fn spec_up(self) -> MapSize {
        match self {
            MapSize::Large => MapSize::Small,
            MapSize::Normal => MapSize::Large,
            MapSize::Small => MapSize::Normal,
        }
    }

    /// The tier below in the menu; the bottom wraps to the top.
    pub open spec fn spec_down(self) -> MapSize {
        match self {
            MapSize::Large => MapSize::Normal,
            MapSize::Normal => MapSize::Small,
            MapSize::Small => MapSize::Large,
        }
    }

    /// Width and height of the board of this tier.
    pub open spec fn spec_map_size(self) -> (u16, u16) {
        match self {
            MapSize::Large => (50, 40),
            MapSize::Normal => (40, 30),
            MapSize::Small => (20, 15),
        }
    }

    /// The position of the tier in the menu, from the top.
    pub open spec fn spec_index(self) -> int {
        match self {
            MapSize::Large => 0,
            MapSize::Normal => 1,
            MapSize::Small => 2,
        }
    }

    pub fn up(&self) -> (r: MapSize)
        ensures
            r == self.spec_up(),
    {
        match self {
            MapSize::Large => MapSize::Small,
            MapSize::Normal => MapSize::Large,
            MapSize::Small => MapSize::Normal,
        }
    }

    pub fn down(&self) -> (r: MapSize)
        ensures
            r == self.spec_down(),
    {
        match self {
            MapSize::Large => MapSize::Normal,
            MapSize::Normal => MapSize::Small,
            MapSize::Small => MapSize::Large,
        }
    }

    pub fn map_size(&self) -> (r: (u16, u16))
        ensures
            r == self.spec_map_size(),
    {
        match self {
            Self::Large => (50, 40),
            Self::Normal => (40, 30),
            Self::Small => (20, 15),
        }
    }

    pub fn index(&self) -> (r: usize)
        ensures
            r == self.spec_index(),
    {
        match self {
            Self::Large => 0,
            Self::Normal => 1,
            Self::Small => 2,
        }
    }
}

impl Default for MapSize {
    fn default() -> (r: MapSize)
        ensures
            r == MapSize::Large,
    {
        MapSize::Large
    }
}

impl GameLevel {
    /// The tier above in the menu; the top wraps to the bottom.
    pub open spec fn spec_up(self) -> GameLevel {
        match self {
            GameLevel::Hard => GameLevel::Easy,
            GameLevel::Normal => GameLevel::Hard,
            GameLevel::Easy => GameLevel::Normal,
        }
    }

    /// The tier below in the menu; the bottom wraps to the top.
    pub open spec fn spec_down(self) -> GameLevel {
        match self {
            GameLevel::Hard => GameLevel::Normal,
            GameLevel::Normal => GameLevel::Easy,
            GameLevel::Easy => GameLevel::Hard,
        }
    }

    /// The number of mines at this difficulty on a board of the given size.
    pub open spec fn spec_bomb_cnt(self, map_size: MapSize) -> u16 {
        match map_size {
            MapSize::Large => match self {
                GameLevel::Hard => 500,
                GameLevel::Normal => 300,
                GameLevel::Easy => 200,
            },
            MapSize::Normal => match self {
                GameLevel::Hard => 300,
                GameLevel::Normal => 200,
                GameLevel::Easy => 100,
            },
            MapSize::Small => match self {
                GameLevel::Hard => 75,
                GameLevel::Normal => 35,
                GameLevel::Easy => 15,
            },
        }
    }

    /// The position of the tier in the menu, from the top.
    pub open spec fn spec_index(self) -> int {
        match self {
            GameLevel::Hard => 0,
            GameLevel::Normal => 1,
            GameLevel::Easy => 2,
        }
    }

    pub fn up(&self) -> (r: GameLevel)
        ensures
            r == self.spec_up(),
    {
        match self {
            GameLevel::Hard => GameLevel::Easy,
            GameLevel::Normal => GameLevel::Hard,
            GameLevel::Easy => GameLevel::Normal,
        }
    }

    pub fn down(&self) -> (r: GameLevel)
        ensures
            r == self.spec_down(),
    {
        match self {
            GameLevel::Hard => GameLevel::Normal,
            GameLevel::Normal => GameLevel::Easy,
            GameLevel::Easy => GameLevel::Hard,
        }
    }

    pub fn bomb_cnt(&self, map_size: MapSize) -> (r: u16)
        ensures
            r == self.spec_bomb_cnt(map_size),
    {
        match map_size {
            MapSize::Large => match self {
                Self::Hard => 500,
                Self::Normal => 300,
                Self::Easy => 200,
            },
            MapSize::Normal => match self {
                Self::Hard => 300,
                Self::Normal => 200,
                Self::Easy => 100,
            },
            MapSize::Small => match self {
                Self::Hard => 75,
                Self::Normal => 35,
                Self::Easy => 15,
            },
        }
    }

    pub fn index(&self) -> (r: usize)
        ensures
            r == self.spec_index(),
    {
        match self {
            Self::Hard => 0,
            Self::Normal => 1,
            Self::Easy => 2,
        }
    }
}

impl Default for GameLevel {
    fn default() -> (r: GameLevel)
        ensures
            r == GameLevel::Hard,
    {
        GameLevel::Hard
    }
}

impl MenuKind {
    /// The other selector.
    pub open spec fn other(self) -> MenuKind {
        match self {
            MenuKind::MapSize => MenuKind::GameLevel,
            MenuKind::GameLevel => MenuKind::MapSize,
        }
    }

    pub fn left(&self) -> (r: MenuKind)
        ensures
            r == self.other(),
    {
        match self {
            MenuKind::MapSize => MenuKind::GameLevel,
            MenuKind::GameLevel => MenuKind::MapSize,
        }
    }

    pub fn right(&self) -> (r: MenuKind)
        ensures
            r == self.other(),
    {
        match self {
            MenuKind::MapSize => MenuKind::GameLevel,
            MenuKind::GameLevel => MenuKind::MapSize,
        }
    }
}

impl Default for MenuKind {
    fn default() -> (r: MenuKind)
        ensures
            r == MenuKind::MapSize,
    {
        MenuKind::MapSize
    }
}

} // verus!
