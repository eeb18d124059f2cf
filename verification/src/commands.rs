use vstd::prelude::*;

verus! {

/// A command the decision core asks the windowing toolkit to carry out.
/// Every command is best-effort at the toolkit boundary: a failure there is
/// logged and never changes what the core decided.
#[derive(Clone, Copy, Debug, PartialEq, Eq, Structural)]
pub enum Command {
    /// Force the tray's context menu visible.
    ShowMenu,
    /// Hide the main window.
    Hide,
    /// Show the main window.
    Show,
    /// Bring the main window to the front.
    Focus,
    /// Terminate the process with this exit code.
    Exit(i32),
}

} // verus!
