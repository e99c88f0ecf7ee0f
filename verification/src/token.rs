//! Working with the stored token: showing, inspecting and refreshing it.

pub mod inspect;
pub mod refresh;
pub mod show;
