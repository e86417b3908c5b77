use roguelike_demo::assetloader::AssetLoadingState;
use roguelike_demo::assetloader::AssetPollState;
use roguelike_demo::assetloader::LoadStatus;
use roguelike_demo::assetloader::poll_all_load_status;
use roguelike_demo::assetloader::start_loading;
use roguelike_demo::flow::MenuFlow;
use roguelike_demo::gamestate::GameState;

#[test]
fn successor_chain_is_linear() {
    assert_eq!(GameState::AssetLoading.successor(), Some(GameState::DisclaimerMenu));
    assert_eq!(GameState::DisclaimerMenu.successor(), Some(GameState::MainMenu));
    assert_eq!(GameState::MainMenu.successor(), Some(GameState::GameRunning));
    assert_eq!(GameState::GameRunning.successor(), None);
}

#[test]
fn defaults_are_the_initial_states() {
    assert_eq!(GameState::default(), GameState::AssetLoading);
    assert_eq!(AssetLoadingState::default(), AssetLoadingState::NotLoaded);
}

#[test]
fn start_loading_declares_total() {
    let mut status = LoadStatus { total: 0, loaded: 0 };
    let next = start_loading(&mut status, 3);
    assert_eq!(next, AssetLoadingState::Loading);
    assert_eq!(status.total, 3);
    assert_eq!(status.loaded, 0);
}

#[test]
fn poll_all_loaded_completes_and_opens_disclaimer() {
    let mut status = LoadStatus { total: 3, loaded: 0 };
    let polls = vec![AssetPollState::Loaded, AssetPollState::Loaded, AssetPollState::Loaded];
    let out = poll_all_load_status(&mut status, &polls);
    assert_eq!(status.loaded, 3);
    assert_eq!(out.next_load_state, Some(AssetLoadingState::DoneLoading));
    assert_eq!(out.next_game_state, Some(GameState::DisclaimerMenu));
}

#[test]
fn poll_partial_keeps_loading() {
    let mut status = LoadStatus { total: 3, loaded: 0 };
    let polls = vec![AssetPollState::Loaded, AssetPollState::Loading, AssetPollState::NotLoaded];
    let out = poll_all_load_status(&mut status, &polls);
    assert_eq!(status.loaded, 1);
    assert_eq!(status.total, 3);
    assert_eq!(out.next_load_state, None);
    assert_eq!(out.next_game_state, None);
}

#[test]
fn poll_recounts_from_scratch_each_pass() {
    let mut status = LoadStatus { total: 3, loaded: 2 };
    let polls = vec![AssetPollState::Loaded, AssetPollState::Loading, AssetPollState::Loading];
    let out = poll_all_load_status(&mut status, &polls);
    assert_eq!(status.loaded, 1);
    assert_eq!(out.next_load_state, None);
    assert_eq!(out.next_game_state, None);
}

#[test]
fn poll_failure_is_reported_and_menus_stay_shut() {
    let mut status = LoadStatus { total: 3, loaded: 0 };
    let polls = vec![AssetPollState::Loaded, AssetPollState::Failed, AssetPollState::Loading];
    let out = poll_all_load_status(&mut status, &polls);
    assert_eq!(status.loaded, 1);
    assert_eq!(out.next_load_state, Some(AssetLoadingState::FailedLoading));
    assert_eq!(out.next_game_state, None);
}

#[test]
fn poll_completion_outranks_failure_in_one_pass() {
    // A pass that finds every declared asset loaded reports done even
    // if the same pass saw a failure: the host keeps only the last
    // request of a pass, and completion is requested after failure.
    let mut status = LoadStatus { total: 1, loaded: 0 };
    let polls = vec![AssetPollState::Loaded, AssetPollState::Failed];
    let out = poll_all_load_status(&mut status, &polls);
    assert_eq!(status.loaded, 1);
    assert_eq!(out.next_load_state, Some(AssetLoadingState::DoneLoading));
    assert_eq!(out.next_game_state, Some(GameState::DisclaimerMenu));
}

#[test]
fn poll_empty_set_is_complete_at_once() {
    let mut status = LoadStatus { total: 0, loaded: 0 };
    let polls: Vec<AssetPollState> = Vec::new();
    let out = poll_all_load_status(&mut status, &polls);
    assert_eq!(status.loaded, 0);
    assert_eq!(out.next_load_state, Some(AssetLoadingState::DoneLoading));
    assert_eq!(out.next_game_state, Some(GameState::DisclaimerMenu));
}

#[test]
fn flow_runs_the_whole_menu_chain() {
    let mut flow = MenuFlow::new();
    assert_eq!(flow.load, AssetLoadingState::NotLoaded);
    assert_eq!(flow.game, GameState::AssetLoading);

    flow.begin_loading(3);
    assert_eq!(flow.load, AssetLoadingState::Loading);
    assert_eq!(flow.game, GameState::AssetLoading);
    assert_eq!(flow.status.total, 3);

    // First pass: one asset still under way, the menus stay shut.
    let polls = vec![AssetPollState::Loaded, AssetPollState::Loaded, AssetPollState::Loading];
    flow.poll(&polls);
    assert_eq!(flow.load, AssetLoadingState::Loading);
    assert_eq!(flow.game, GameState::AssetLoading);
    assert_eq!(flow.status.loaded, 2);

    // Second pass: everything loaded, the disclaimer screen opens.
    let polls = vec![AssetPollState::Loaded, AssetPollState::Loaded, AssetPollState::Loaded];
    flow.poll(&polls);
    assert_eq!(flow.load, AssetLoadingState::DoneLoading);
    assert_eq!(flow.game, GameState::DisclaimerMenu);
    assert_eq!(flow.status.loaded, 3);

    // The menu buttons walk the rest of the chain one step at a time.
    flow.apply_menu_transition(GameState::MainMenu);
    assert_eq!(flow.game, GameState::MainMenu);
    flow.apply_menu_transition(GameState::GameRunning);
    assert_eq!(flow.game, GameState::GameRunning);
    assert_eq!(flow.load, AssetLoadingState::DoneLoading);
}

#[test]
fn flow_failed_load_keeps_loading_screen() {
    let mut flow = MenuFlow::new();
    flow.begin_loading(2);
    let polls = vec![AssetPollState::Failed, AssetPollState::Loaded];
    flow.poll(&polls);
    assert_eq!(flow.load, AssetLoadingState::FailedLoading);
    assert_eq!(flow.game, GameState::AssetLoading);
    assert_eq!(flow.status.loaded, 1);
}
