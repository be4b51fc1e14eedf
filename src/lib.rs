//! Scene and loading coordination for a small 3D game: a progress counter for
//! asynchronous asset loads, the loading-bar geometry that reflects it, an
//! entity store with ownership bookkeeping, and the Loading / MainMenu /
//! Gameplay state machine with its push/pop stack.

pub mod ecs;
pub mod game;
pub mod progress;
pub mod states;
pub mod ui;
