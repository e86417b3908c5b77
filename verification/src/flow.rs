//! The menu flow as one machine: the loading status, the game screen,
//! and the loaded/total counters, tied together by the readiness gate.
//! Its well-formedness invariant is the one property the whole flow is
//! built around: the game shows a menu only after every declared asset
//! finished loading, and a failed load leaves the game on the loading
//! screen for good.

use vstd::prelude::*;

use crate::assetloader::AssetLoadingState;
use crate::assetloader::AssetPollState;
use crate::assetloader::LoadStatus;
use crate::assetloader::PollOutcome;
use crate::assetloader::any_failed;
use crate::assetloader::loaded_count;
use crate::assetloader::poll_all_load_status;
use crate::assetloader::spec_poll_outcome;
use crate::assetloader::start_loading;
use crate::gamestate::GameState;

verus! {

/// The whole menu flow: the asset set's loading status, the screen the
/// player sees, and the loading counters.
#[derive(Debug, Clone, Copy, PartialEq, Eq, Structural)]
pub struct MenuFlow {
    pub load: AssetLoadingState,
    pub game: GameState,
    pub status: LoadStatus,
}

impl MenuFlow {
    /// The readiness gate as an invariant: any screen past asset
    /// loading means the load completed. Its contrapositive covers the
    /// failure path: while loading is unfinished or failed, the player
    /// still sees the loading screen.
    pub open spec fn wf(self) -> bool {
        self.game != GameState::AssetLoading ==> self.load == AssetLoadingState::DoneLoading
    }

    /// A freshly started game: nothing loaded, nothing declared, the
    /// loading screen up.
    pub fn new() -> (flow: MenuFlow)
        ensures
            flow.load == AssetLoadingState::NotLoaded,
            flow.game == GameState::AssetLoading,
            flow.status.total == 0,
            flow.status.loaded == 0,
            flow.wf(),
    {
        MenuFlow {
            load: AssetLoadingState::NotLoaded,
            game: GameState::AssetLoading,
            status: LoadStatus { total: 0, loaded: 0 },
        }
    }

    /// Hand the declared asset set to the loader: declare its size and
    /// move the loading status one step, to `Loading`. The screen does
    /// not change.
    pub fn begin_loading(&mut self, total: u64)
        requires
            old(self).wf(),
            old(self).load == AssetLoadingState::NotLoaded,
        ensures
            final(self).wf(),
            final(self).load == AssetLoadingState::Loading,
            old(self).load.is_step(final(self).load),
            final(self).game == old(self).game,
            final(self).status.total == total,
            final(self).status.loaded == old(self).status.loaded,
    {
        let next = start_loading(&mut self.status, total);
        self.load = next;
    }

    /// One polling pass while loading: recount the loaded assets and
    /// apply the pass's decision. The loading status and the screen
    /// move together exactly as `spec_poll_outcome` says, and
    /// well-formedness is preserved: the screen leaves asset loading
    /// only in the pass that finds the load complete.
    pub fn poll(&mut self, polls: &Vec<AssetPollState>) -> (out: PollOutcome)
        requires
            old(self).wf(),
            old(self).load == AssetLoadingState::Loading,
            old(self).game == GameState::AssetLoading,
        ensures
            final(self).wf(),
            final(self).status.total == old(self).status.total,
            final(self).status.loaded == loaded_count(polls@),
            out == spec_poll_outcome(
                loaded_count(polls@),
                old(self).status.total as int,
                any_failed(polls@),
            ),
            final(self).load == match out.next_load_state {
                Some(s) => s,
                None => old(self).load,
            },
            final(self).game == match out.next_game_state {
                Some(g) => g,
                None => old(self).game,
            },
    {
        let out = poll_all_load_status(&mut self.status, polls);
        match out.next_load_state {
            Some(s) => {
                self.load = s;
            },
            None => {},
        }
        match out.next_game_state {
            Some(g) => {
                self.game = g;
            },
            None => {},
        }
        out
    }

    /// Apply a menu-driven transition, as the buttons request them: one
    /// step forward along the chain, from a screen past loading.
    /// Well-formedness is preserved, and loading is untouched.
    pub fn apply_menu_transition(&mut self, to: GameState)
        requires
            old(self).wf(),
            old(self).game != GameState::AssetLoading,
            old(self).game.is_step(to),
        ensures
            final(self).wf(),
            final(self).game == to,
            final(self).load == old(self).load,
            final(self).status == old(self).status,
    {
        self.game = to;
    }
}

} // verus!
