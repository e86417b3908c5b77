//! The asset-loading readiness gate. A fixed set of assets is handed to
//! the host's asset loader; each frame the loader reports, per asset,
//! how far it has come. The library counts the fully loaded assets and
//! decides when the loading screen may give way to the menus: only once
//! every declared asset reports loaded, and never before.

use vstd::prelude::*;

use crate::gamestate::GameState;

verus! {

/// The enumerated loading status of the whole asset set. `DoneLoading`
/// and `FailedLoading` are terminal: nothing ever leaves them.
#[derive(Debug, Clone, Copy, PartialEq, Eq, Hash, Structural)]
pub enum AssetLoadingState {
    NotLoaded,
    Loading,
    DoneLoading,
    FailedLoading,
}

impl Default for AssetLoadingState {
    /// Before anything is handed to the loader, nothing is loaded.
    fn default() -> (r: AssetLoadingState)
        ensures
            r == AssetLoadingState::NotLoaded,
    {
        AssetLoadingState::NotLoaded
    }
}

impl AssetLoadingState {
    /// How far along the loading lifecycle a status is; both terminal
    /// states share the final position.
    pub open spec fn rank(self) -> int {
        match self {
            AssetLoadingState::NotLoaded => 0,
            AssetLoadingState::Loading => 1,
            AssetLoadingState::DoneLoading => 2,
            AssetLoadingState::FailedLoading => 2,
        }
    }

    /// A status past which nothing moves: loading either succeeded or
    /// failed for good (there is no recovery path).
    pub open spec fn is_terminal(self) -> bool {
        self == AssetLoadingState::DoneLoading || self == AssetLoadingState::FailedLoading
    }

    /// The transition relation of the loading lifecycle: loading is
    /// started once, and then either completes or fails.
    pub open spec fn is_step(self, to: AssetLoadingState) -> bool {
        match (self, to) {
            (AssetLoadingState::NotLoaded, AssetLoadingState::Loading) => true,
            (AssetLoadingState::Loading, AssetLoadingState::DoneLoading) => true,
            (AssetLoadingState::Loading, AssetLoadingState::FailedLoading) => true,
            _ => false,
        }
    }
}

/// Loading moves monotonically: a step strictly increases the rank.
pub proof fn lemma_load_step_monotonic(from: AssetLoadingState, to: AssetLoadingState)
    requires
        from.is_step(to),
    ensures
        to.rank() > from.rank(),
{
}

/// The terminal statuses really are terminal: no step leaves them.
pub proof fn lemma_load_terminal(from: AssetLoadingState, to: AssetLoadingState)
    requires
        from.is_terminal(),
    ensures
        !from.is_step(to),
{
}

/// What the host's asset loader reports of one asset and its
/// dependencies, reduced to the four outcomes the loading logic tells
/// apart.
#[derive(Debug, Clone, Copy, PartialEq, Eq, Structural)]
pub enum AssetPollState {
    NotLoaded,
    Loading,
    Loaded,
    Failed,
}

/// The loaded/total counter pair shown on the loading screen.
#[derive(Debug, Clone, Copy, PartialEq, Eq, Structural)]
pub struct LoadStatus {
    pub total: u64,
    pub loaded: u64,
}

/// How many assets of a poll report fully loaded.
pub open spec fn loaded_count(polls: Seq<AssetPollState>) -> int
    decreases polls.len(),
{
    if polls.len() == 0 {
        0
    } else {
        loaded_count(polls.drop_last()) + if polls.last() == AssetPollState::Loaded {
            1int
        } else {
            0int
        }
    }
}

/// Whether some asset of a poll reports failed.
pub open spec fn any_failed(polls: Seq<AssetPollState>) -> bool {
    exists|i: int| 0 <= i < polls.len() && #[trigger] polls[i] == AssetPollState::Failed
}

/// The counter never exceeds the number of assets polled.
pub proof fn lemma_loaded_count_bounds(polls: Seq<AssetPollState>)
    ensures
        0 <= loaded_count(polls) <= polls.len(),
    decreases polls.len(),
{
    if polls.len() > 0 {
        lemma_loaded_count_bounds(polls.drop_last());
    }
}

proof fn lemma_loaded_count_take_step(polls: Seq<AssetPollState>, i: int)
    requires
        0 <= i < polls.len(),
    ensures
        loaded_count(polls.take(i + 1)) == loaded_count(polls.take(i)) + if polls[i]
            == AssetPollState::Loaded {
            1int
        } else {
            0int
        },
{
    assert(polls.take(i + 1).drop_last() =~= polls.take(i));
    assert(polls.take(i + 1).last() == polls[i]);
}

proof fn lemma_any_failed_take_step(polls: Seq<AssetPollState>, i: int)
    requires
        0 <= i < polls.len(),
    ensures
        any_failed(polls.take(i + 1)) == (any_failed(polls.take(i)) || polls[i]
            == AssetPollState::Failed),
{
    if any_failed(polls.take(i)) {
        let j = choose|j: int|
            0 <= j < polls.take(i).len() && #[trigger] polls.take(i)[j] == AssetPollState::Failed;
        assert(polls.take(i + 1)[j] == AssetPollState::Failed);
    }
    if polls[i] == AssetPollState::Failed {
        assert(polls.take(i + 1)[i] == AssetPollState::Failed);
    }
    if any_failed(polls.take(i + 1)) {
        let j = choose|j: int|
            0 <= j < polls.take(i + 1).len() && #[trigger] polls.take(i + 1)[j]
                == AssetPollState::Failed;
        if j < i {
            assert(polls.take(i)[j] == AssetPollState::Failed);
        } else {
            assert(polls[i] == AssetPollState::Failed);
        }
    }
}

/// What one polling pass asks the host to do next: move the loading
/// status, move the game screen, or leave either alone.
#[derive(Debug, Clone, Copy, PartialEq, Eq, Structural)]
pub struct PollOutcome {
    pub next_load_state: Option<AssetLoadingState>,
    pub next_game_state: Option<GameState>,
}

/// The decision of one polling pass, given the loaded count, the
/// declared total, and whether any asset failed. Completion is checked
/// first and wins: a pass that sees every declared asset loaded reports
/// done even if the same pass also saw a failure (the host keeps only
/// the last request of a pass). The game screen advances exactly when
/// loading completes.
pub open spec fn spec_poll_outcome(loaded: int, total: int, failed: bool) -> PollOutcome {
    PollOutcome {
        next_load_state: if loaded == total {
            Some(AssetLoadingState::DoneLoading)
        } else if failed {
            Some(AssetLoadingState::FailedLoading)
        } else {
            None
        },
        next_game_state: if loaded == total {
            Some(GameState::DisclaimerMenu)
        } else {
            None
        },
    }
}

/// Start the loading phase: declare how many assets the loader was
/// handed, and move the loading status to `Loading`.
pub fn start_loading(status: &mut LoadStatus, total: u64) -> (next: AssetLoadingState)
    ensures
        final(status).total == total,
        final(status).loaded == old(status).loaded,
        next == AssetLoadingState::Loading,
        AssetLoadingState::NotLoaded.is_step(next),
{
    status.total = total;
    AssetLoadingState::Loading
}

/// One polling pass over every declared asset: recount the loaded
/// assets from scratch, and decide the next loading status and game
/// screen as `spec_poll_outcome` says.
pub fn poll_all_load_status(status: &mut LoadStatus, polls: &Vec<AssetPollState>) -> (out:
    PollOutcome)
    ensures
        final(status).total == old(status).total,
        final(status).loaded == loaded_count(polls@),
        out == spec_poll_outcome(
            loaded_count(polls@),
            old(status).total as int,
            any_failed(polls@),
        ),
{
    let ghost all = polls@;
    status.loaded = 0;
    let mut failed: bool = false;
    let mut i: usize = 0;
    while i < polls.len()
        invariant
            0 <= i <= all.len(),
            all == polls@,
            status.loaded == loaded_count(all.take(i as int)),
            failed == any_failed(all.take(i as int)),
            status.total == old(status).total,
        decreases all.len() - i,
    {
        proof {
            lemma_loaded_count_take_step(all, i as int);
            lemma_any_failed_take_step(all, i as int);
            lemma_loaded_count_bounds(all.take(i as int));
        }
        match polls[i] {
            AssetPollState::Failed => {
                failed = true;
            },
            AssetPollState::Loaded => {
                status.loaded = status.loaded + 1;
            },
            _ => {},
        }
        i = i + 1;
    }
    proof {
        assert(all.take(all.len() as int) =~= all);
    }
    let done: bool = status.loaded == status.total;
    PollOutcome {
        next_load_state: if done {
            Some(AssetLoadingState::DoneLoading)
        } else if failed {
            Some(AssetLoadingState::FailedLoading)
        } else {
            None
        },
        next_game_state: if done {
            Some(GameState::DisclaimerMenu)
        } else {
            None
        },
    }
}

/// The readiness gate itself: a polling pass asks the game screen to
/// move only together with a completed load, and then only one step
/// forward, onto the disclaimer screen.
pub proof fn lemma_poll_gate(loaded: int, total: int, failed: bool)
    ensures
        spec_poll_outcome(loaded, total, failed).next_game_state is Some
            <==> spec_poll_outcome(loaded, total, failed).next_load_state
            == Some(AssetLoadingState::DoneLoading),
        spec_poll_outcome(loaded, total, failed).next_game_state is Some ==> spec_poll_outcome(
            loaded,
            total,
            failed,
        ).next_game_state == Some(GameState::DisclaimerMenu) && GameState::AssetLoading.is_step(
            GameState::DisclaimerMenu,
        ),
{
}

/// Every loading-status move a polling pass asks for is a valid step
/// from `Loading`, the only status the pass runs in.
pub proof fn lemma_poll_load_step(loaded: int, total: int, failed: bool)
    ensures
        match spec_poll_outcome(loaded, total, failed).next_load_state {
            Some(s) => AssetLoadingState::Loading.is_step(s),
            None => true,
        },
{
}

} // verus!
