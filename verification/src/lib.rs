//! Terminal feature negotiation for awrit: tmux passthrough framing,
//! keyboard-enhancement and kitty-graphics capability queries, raw-mode
//! bookkeeping and the command plans that switch terminal features on and off.
pub mod keyboard;
pub mod kitty;
pub mod raw_mode;
pub mod reply;
pub mod size;
pub mod term;
pub mod tmux;
