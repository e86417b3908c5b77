//! The decision logic of the two menu buttons. The host's UI layer
//! reports, per frame, how the pointer interacts with a button; the
//! logic here decides the button's feedback color, whether the button
//! remembers a press, and whether the game screen moves on. A button
//! advances the game on release: the press is recorded first, and the
//! transition fires on the next report that is not a press.

use vstd::prelude::*;

use crate::gamestate::GameState;

verus! {

/// How the pointer interacts with a button this frame, as the host's
/// UI layer reports it. `Idle` stands for no interaction at all.
#[derive(Debug, Clone, Copy, PartialEq, Eq, Structural)]
pub enum ButtonInteraction {
    Pressed,
    Hovered,
    Idle,
}

/// The two feedback colors of the menu palette: a button shows alice
/// blue while held down and yellow green otherwise.
#[derive(Debug, Clone, Copy, PartialEq, Eq, Structural)]
pub enum ButtonColor {
    AliceBlue,
    YellowGreen,
}

/// What the UI layer should do with a button after one report: paint
/// it, remember whether it has been pressed, and possibly move the
/// game screen on.
#[derive(Debug, Clone, Copy, PartialEq, Eq, Structural)]
pub struct ButtonResponse {
    pub color: ButtonColor,
    pub pressed: bool,
    pub next_game_state: Option<GameState>,
}

/// The decision of the disclaimer screen's accept button. A press
/// highlights the button and is remembered; any later report releases
/// it, and a remembered press then moves the game to the main menu.
/// The remembered press is kept even when no transition fires.
pub open spec fn spec_tos_button_response(pressed: bool, interaction: ButtonInteraction) -> ButtonResponse {
    match interaction {
        ButtonInteraction::Pressed => ButtonResponse {
            color: ButtonColor::AliceBlue,
            pressed: true,
            next_game_state: None,
        },
        _ => ButtonResponse {
            color: ButtonColor::YellowGreen,
            pressed: pressed,
            next_game_state: if pressed {
                Some(GameState::MainMenu)
            } else {
                None
            },
        },
    }
}

/// The decision of the main menu's play button. As with the accept
/// button, a press is remembered and the transition fires on release;
/// unlike there, the remembered press is cleared once the release is
/// handled.
pub open spec fn spec_play_button_response(pressed: bool, interaction: ButtonInteraction) -> ButtonResponse {
    match interaction {
        ButtonInteraction::Pressed => ButtonResponse {
            color: ButtonColor::AliceBlue,
            pressed: true,
            next_game_state: None,
        },
        _ => ButtonResponse {
            color: ButtonColor::YellowGreen,
            pressed: false,
            next_game_state: if pressed {
                Some(GameState::GameRunning)
            } else {
                None
            },
        },
    }
}

/// One report on the disclaimer screen's accept button, decided as
/// `spec_tos_button_response` says.
pub fn tos_button_step(pressed: bool, interaction: ButtonInteraction) -> (r: ButtonResponse)
    ensures
        r == spec_tos_button_response(pressed, interaction),
{
    match interaction {
        ButtonInteraction::Pressed => ButtonResponse {
            color: ButtonColor::AliceBlue,
            pressed: true,
            next_game_state: None,
        },
        _ => ButtonResponse {
            color: ButtonColor::YellowGreen,
            pressed: pressed,
            next_game_state: if pressed {
                Some(GameState::MainMenu)
            } else {
                None
            },
        },
    }
}

/// One report on the main menu's play button, decided as
/// `spec_play_button_response` says.
pub fn play_button_step(pressed: bool, interaction: ButtonInteraction) -> (r: ButtonResponse)
    ensures
        r == spec_play_button_response(pressed, interaction),
{
    match interaction {
        ButtonInteraction::Pressed => ButtonResponse {
            color: ButtonColor::AliceBlue,
            pressed: true,
            next_game_state: None,
        },
        _ => ButtonResponse {
            color: ButtonColor::YellowGreen,
            pressed: false,
            next_game_state: if pressed {
                Some(GameState::GameRunning)
            } else {
                None
            },
        },
    }
}

/// The accept button only ever moves the game one step forward, from
/// the disclaimer screen to the main menu, and only after a press was
/// recorded and released.
pub proof fn lemma_tos_button_advances(pressed: bool, interaction: ButtonInteraction)
    ensures
        match spec_tos_button_response(pressed, interaction).next_game_state {
            Some(to) => to == GameState::MainMenu && GameState::DisclaimerMenu.is_step(to)
                && pressed && interaction != ButtonInteraction::Pressed,
            None => true,
        },
{
}

/// The play button only ever moves the game one step forward, from the
/// main menu into the running game, and only after a press was
/// recorded and released.
pub proof fn lemma_play_button_advances(pressed: bool, interaction: ButtonInteraction)
    ensures
        match spec_play_button_response(pressed, interaction).next_game_state {
            Some(to) => to == GameState::GameRunning && GameState::MainMenu.is_step(to)
                && pressed && interaction != ButtonInteraction::Pressed,
            None => true,
        },
{
}

/// While a button is held down it shows the highlight color, and the
/// game screen never moves; the transition can fire only on release.
pub proof fn lemma_button_highlight(pressed: bool, interaction: ButtonInteraction)
    ensures
        interaction == ButtonInteraction::Pressed ==> {
            &&& spec_tos_button_response(pressed, interaction).color == ButtonColor::AliceBlue
            &&& spec_tos_button_response(pressed, interaction).next_game_state is None
            &&& spec_play_button_response(pressed, interaction).color == ButtonColor::AliceBlue
            &&& spec_play_button_response(pressed, interaction).next_game_state is None
        },
        interaction != ButtonInteraction::Pressed ==> {
            &&& spec_tos_button_response(pressed, interaction).color == ButtonColor::YellowGreen
            &&& spec_play_button_response(pressed, interaction).color == ButtonColor::YellowGreen
        },
{
}

} // verus!
