//! The verified core of a terminal feed viewer.
//!
//! The viewer shows an incrementally loaded, append-only feed in three
//! panes: a list of the items, the details of the selected item, and a
//! status line. This crate holds its state and its rules as pure state
//! transitions: every function takes plain values and hands back the
//! terminal commands to perform or the action to take, and never touches a
//! terminal, a network or a clock itself.
//!
//! - [`store`]: the feed store, the pagination cursor and the pagination lock.
//! - [`selection`]: the selected item and the scroll window of the list pane.
//! - [`terminal`]: terminal commands as data.
//! - [`component`], [`feed_pane`], [`tweet_pane`], [`bottom_bar`]: the panes.
//! - [`layout`]: how the screen is divided.
//! - [`ui`]: the display-mode controller and the event dispatcher.
//! - [`text`], [`wrap`]: numerals, padding and word wrapping.

pub mod bottom_bar;
pub mod component;
pub mod feed_pane;
pub mod layout;
pub mod selection;
pub mod store;
pub mod terminal;
pub mod text;
pub mod tweet_pane;
pub mod ui;
pub mod wrap;
