//! The high-level screen the player currently sees, as a linear state
//! machine: asset loading, then a disclaimer screen, then the main
//! menu, then the running game. Transitions only ever move forward
//! along that chain, one step at a time.

use vstd::prelude::*;

verus! {

/// The enumerated high-level screen of the game.
#[derive(Debug, Clone, Copy, PartialEq, Eq, Hash, Structural)]
pub enum GameState {
    AssetLoading,
    DisclaimerMenu,
    MainMenu,
    GameRunning,
}

impl Default for GameState {
    /// A fresh game starts on the loading screen.
    fn default() -> (r: GameState)
        ensures
            r == GameState::AssetLoading,
    {
        GameState::AssetLoading
    }
}

impl GameState {
    /// Position of a state in the linear chain, starting at 0.
    pub open spec fn rank(self) -> int {
        match self {
            GameState::AssetLoading => 0,
            GameState::DisclaimerMenu => 1,
            GameState::MainMenu => 2,
            GameState::GameRunning => 3,
        }
    }

    /// The transition relation of the game: one forward step along the
    /// chain. Nothing ever skips a screen or goes back.
    pub open spec fn is_step(self, to: GameState) -> bool {
        to.rank() == self.rank() + 1
    }

    /// The state one step further along the chain, if any.
    pub open spec fn spec_successor(self) -> Option<GameState> {
        match self {
            GameState::AssetLoading => Some(GameState::DisclaimerMenu),
            GameState::DisclaimerMenu => Some(GameState::MainMenu),
            GameState::MainMenu => Some(GameState::GameRunning),
            GameState::GameRunning => None,
        }
    }

    /// The state that follows this one in the chain; `None` for the
    /// final state, which has no successor.
    pub fn successor(self) -> (r: Option<GameState>)
        ensures
            r == self.spec_successor(),
    {
        match self {
            GameState::AssetLoading => Some(GameState::DisclaimerMenu),
            GameState::DisclaimerMenu => Some(GameState::MainMenu),
            GameState::MainMenu => Some(GameState::GameRunning),
            GameState::GameRunning => None,
        }
    }
}

/// Transitions are monotonic: a step strictly increases the rank, so no
/// chain of steps can ever revisit a state.
pub proof fn lemma_step_monotonic(from: GameState, to: GameState)
    requires
        from.is_step(to),
    ensures
        to.rank() > from.rank(),
{
}

/// Transitions are exclusive: from any state at most one state is
/// reachable in a step, and it is the successor.
pub proof fn lemma_step_exclusive(from: GameState, to: GameState)
    requires
        from.is_step(to),
    ensures
        from.spec_successor() == Some(to),
{
}

/// The successor is always a valid step, so the whole chain
/// `AssetLoading -> DisclaimerMenu -> MainMenu -> GameRunning` is
/// exactly the set of allowed transitions.
pub proof fn lemma_successor_is_step(from: GameState)
    ensures
        match from.spec_successor() {
            Some(to) => from.is_step(to),
            None => forall|to: GameState| !from.is_step(to),
        },
{
}

} // verus!
