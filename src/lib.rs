//! Page routing, sidebar state and panel composition for a small desktop shell.
//!
//! The shell redraws its whole window every frame from an [`state::AppState`]: the
//! regions are claimed in the order of [`layout::claim_order`], the central region shows
//! [`page::render`] of the current page, and the clicks of a frame change the state
//! through [`state::AppState::apply`].

pub mod fonts;
pub mod icon;
pub mod layout;
pub mod page;
pub mod state;
