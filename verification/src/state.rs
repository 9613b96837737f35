//! The states of the game: the menu and the levels in their order.

use vstd::prelude::*;

verus! {

/// Where the game stands: in the menu or in one of the levels.
#[derive(Clone, Copy, Debug, PartialEq, Eq, Hash, Structural)]
pub enum GameState {
    MainMenu,
    Level0,
    Level1,
    Level2,
    Level3,
    Level4,
    Level5,
    Level6,
    Level7,
    LevelTest,
}

/// What the player asks for, apart from laying a tile.
#[derive(Clone, Copy, Debug, PartialEq, Eq, Structural)]
pub enum Intent {
    RotateTopOfPile,
    DrawNext,
    RestartLevel,
    NextLevel,
    ToMainMenu,
}

impl GameState {
    /// The place of a state in the round of levels: the menu is 0, the
    /// levels follow from 1 to 8. The test level stands outside the round.
    pub open spec fn place(self) -> Option<nat> {
        match self {
            GameState::MainMenu => Some(0),
            GameState::Level0 => Some(1),
            GameState::Level1 => Some(2),
            GameState::Level2 => Some(3),
            GameState::Level3 => Some(4),
            GameState::Level4 => Some(5),
            GameState::Level5 => Some(6),
            GameState::Level6 => Some(7),
            GameState::Level7 => Some(8),
            GameState::LevelTest => None,
        }
    }

    /// The state that follows: the next place in the round, the menu after
    /// the last level, and the menu after the test level.
    pub open spec fn successor(self) -> GameState {
        match self {
            GameState::MainMenu => GameState::Level0,
            GameState::Level0 => GameState::Level1,
            GameState::Level1 => GameState::Level2,
            GameState::Level2 => GameState::Level3,
            GameState::Level3 => GameState::Level4,
            GameState::Level4 => GameState::Level5,
            GameState::Level5 => GameState::Level6,
            GameState::Level6 => GameState::Level7,
            GameState::Level7 => GameState::MainMenu,
            GameState::LevelTest => GameState::MainMenu,
        }
    }

    /// The state that the game enters when the player asks for something:
    /// the same level again, the one that follows, or the menu. Turning and
    /// drawing tiles leave the game where it is.
    pub fn after(&self, intent: Intent) -> (next: GameState)
        ensures
            next == match intent {
                Intent::RestartLevel => *self,
                Intent::NextLevel => self.successor(),
                Intent::ToMainMenu => GameState::MainMenu,
                _ => *self,
            },
    {
        match intent {
            Intent::RestartLevel => *self,
            Intent::NextLevel => self.next_level(),
            Intent::ToMainMenu => GameState::MainMenu,
            Intent::RotateTopOfPile | Intent::DrawNext => *self,
        }
    }

    /// The state that follows this one.
    pub fn next_level(&self) -> (next: GameState)
        ensures
            next == self.successor(),
    {
        match self {
            GameState::MainMenu => GameState::Level0,
            GameState::Level0 => GameState::Level1,
            GameState::Level1 => GameState::Level2,
            GameState::Level2 => GameState::Level3,
            GameState::Level3 => GameState::Level4,
            GameState::Level4 => GameState::Level5,
            GameState::Level5 => GameState::Level6,
            GameState::Level6 => GameState::Level7,
            GameState::Level7 => GameState::MainMenu,
            _ => GameState::MainMenu,
        }
    }
}

impl Default for GameState {
    /// The game starts in the menu.
    fn default() -> (state: GameState)
        ensures
            state == GameState::MainMenu,
    {
        GameState::MainMenu
    }
}

/// The states of the round follow each other place by place, and after the
/// last level the round starts again with the menu.
pub proof fn levels_go_round(state: GameState)
    requires
        state.place().is_some(),
    ensures
        state.successor().place() == Some(((state.place().unwrap() + 1) % 9) as nat),
{
}

} // verus!
