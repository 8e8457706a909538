//! The runtime core of a small real-time 2D game: geometry, input state,
//! sprite regions, the font cache, frame pacing and the view state machine.

pub mod clock;
pub mod context;
pub mod controls;
pub mod data;
pub mod events;
pub mod fonts;
pub mod game_loop;
pub mod gfx;
pub mod view;

pub use crate::context::Phi;
pub use crate::game_loop::GameLoop;
pub use crate::view::{Step, View, ViewAction};
