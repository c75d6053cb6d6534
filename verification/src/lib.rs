//! Themed text colors and tab-row construction for a GUI front end.
//!
//! The crate computes, as plain data, everything the rendering layer needs:
//! which color a piece of text gets for a given palette and semantic role,
//! and how a row of tab buttons is laid out (heights, styles, unread badges).
//! Turning these descriptions into toolkit widgets is left to the embedding
//! application.

pub mod palette;
pub mod tab;
pub mod text;
