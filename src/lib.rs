//! Flashcard sessions: display modes, card navigation, timed notices, and the
//! import formats that feed the card store.

pub mod app;
pub mod card;
pub mod import;
pub mod text;
