//! A verified reducer for a terminal UI: it folds user and runtime events
//! into the UI's state and answers each with the effects the shell performs.
pub mod laws;
pub mod model;
pub mod state;
pub mod text;


pub use model::Pane;
pub use state::{UiEffect, UiEvent, UiState};
