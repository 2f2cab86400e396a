//! Interactive terminal prompts with a verified core.
//!
//! The crate models the state of redraw-in-place prompts: a cursor-tracking
//! canvas, a caret-addressable line editor, paginated single- and
//! multi-select navigators, and a short-circuiting validation pipeline.
//! Everything that decides or computes is specified and verified; reading
//! keys and writing bytes to a real terminal is left to the caller.

pub mod canvas;
pub mod choice;
pub mod confirm;
pub mod editor;
pub mod error;
pub mod events;
pub mod escapes;
pub mod input;
pub mod multiselect;
pub mod navigator;
pub mod password;
pub mod select;
pub mod style;
pub mod theme;
pub mod util;
pub mod validation;
