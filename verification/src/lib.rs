//! Menu flow of a small 2D game: a linear game-state machine, an
//! asset-loading readiness gate, and the decision logic of the menu
//! buttons. The engine-facing plumbing (scene spawning, rendering,
//! input dispatch) lives outside this crate; everything here works on
//! plain values and is verified.

pub mod assetloader;
pub mod flow;
pub mod gamestate;
pub mod menu;
