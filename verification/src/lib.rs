//! Decision core of a tray-driven desktop shell that manages one main
//! window's visibility.
//!
//! The shell shows a tray icon with a two-item context menu (Quit, Toggle
//! Window). Every decision the shell makes — which tray clicks force the menu
//! open, and what a selected menu item does to the window or the process — is
//! a pure function here, from the interaction event and the window's observed
//! state to a sequence of commands for the windowing toolkit to carry out.
//! The toolkit wiring itself (event loop, tray rendering, window handles)
//! lives outside this crate and only executes the commands decided here.

pub mod commands;
pub mod events;
pub mod menu;
pub mod state;
pub mod tray;
