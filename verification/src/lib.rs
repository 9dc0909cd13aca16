//! A four-panel terminal dashboard for a Mercurial working copy.
//!
//! The crate holds the parts of the dashboard that decide something: which
//! panel is highlighted, how a key press moves the highlight, how the screen
//! is divided among the panels and what is painted into each part.  Reading
//! the keyboard, running `hg` and owning the terminal are left to the program
//! that uses the crate.

pub mod commands;
pub mod dashboard;
pub mod events;
pub mod focus;
pub mod layout;
pub mod panels;
pub mod screen;
pub mod ui;
