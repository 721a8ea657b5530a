//! Status information for a desktop bar: the decision logic of a media-player
//! remote control over the session bus, of a terminal-multiplexer helper and
//! of a weather summary. The bus, the network and the shell are driven by the
//! caller; this crate decides what to ask, and what to print from the answers.
use vstd::prelude::*;

pub mod duration;
pub mod error;
pub mod metadata;
pub mod player;
pub mod remote;
pub mod text;
pub mod tmux;
pub mod waybar;
pub mod weather;
pub mod wire;
