use vstd::prelude::*;

use crate::commands::Command;
use crate::events::WindowProbe;

verus! {

/// What a selected menu item's identifier stands for.
#[derive(Clone, Copy, Debug, PartialEq, Eq, Structural)]
pub enum MenuAction {
    /// The "quit" item: terminate the process.
    Quit,
    /// The "toggle" item: flip the main window's visibility.
    Toggle,
    /// Any other identifier: an unrecognized or future item, safely ignored.
    Ignore,
}

/// How the dispatcher reads a menu identifier.
pub open spec fn spec_classify(id: Seq<char>) -> MenuAction {
    if id == "quit"@ {
        MenuAction::Quit
    } else if id == "toggle"@ {
        MenuAction::Toggle
    } else {
        MenuAction::Ignore
    }
}

/// Decide which action a selected menu identifier stands for. Only the two
/// identifiers the menu was built with mean anything; everything else is
/// ignored without touching any window or process interface.
pub fn classify_menu_event(id: &str) -> (a: MenuAction)
    ensures
        a == spec_classify(id@),
{
    let owned: String = id.to_owned();
    if owned == "quit".to_owned() {
        MenuAction::Quit
    } else if owned == "toggle".to_owned() {
        MenuAction::Toggle
    } else {
        MenuAction::Ignore
    }
}

/// The toggle action's decision, from what probing the main window reported:
/// hide a visible window; show and then focus a hidden one; treat a failed
/// visibility read as hidden (fail-safe: prefer showing the window over doing
/// nothing); and do nothing at all when the window is absent.
pub open spec fn spec_toggle_commands(probe: WindowProbe) -> Seq<Command> {
    match probe {
        WindowProbe::Absent => Seq::empty(),
        WindowProbe::Reported(visible) => if visible {
            seq![Command::Hide]
        } else {
            seq![Command::Show, Command::Focus]
        },
        WindowProbe::ReadFailed => seq![Command::Show, Command::Focus],
    }
}

/// Carry out the toggle decision for one probe of the main window.
///
/// An absent window issues no command; a failed read always leads to a show
/// and focus attempt, never a hide.
pub fn toggle_commands(probe: WindowProbe) -> (r: Vec<Command>)
    ensures
        r@ == spec_toggle_commands(probe),
        probe == WindowProbe::Absent ==> r@ == Seq::<Command>::empty(),
        probe == WindowProbe::ReadFailed ==> r@ == seq![Command::Show, Command::Focus],
{
    let mut r: Vec<Command> = Vec::new();
    match probe {
        WindowProbe::Absent => {
            proof {
                assert(r@ =~= Seq::<Command>::empty());
            }
        },
        WindowProbe::Reported(visible) => {
            if visible {
                r.push(Command::Hide);
                proof {
                    assert(r@ =~= seq![Command::Hide]);
                }
            } else {
                r.push(Command::Show);
                r.push(Command::Focus);
                proof {
                    assert(r@ =~= seq![Command::Show, Command::Focus]);
                }
            }
        },
        WindowProbe::ReadFailed => {
            r.push(Command::Show);
            r.push(Command::Focus);
            proof {
                assert(r@ =~= seq![Command::Show, Command::Focus]);
            }
        },
    }
    r
}

/// The whole menu dispatcher as one decision: given the selected identifier
/// and what probing the main window reports, the exact command sequence
/// issued.
pub open spec fn spec_menu_commands(id: Seq<char>, probe: WindowProbe) -> Seq<Command> {
    match spec_classify(id) {
        MenuAction::Quit => seq![Command::Exit(0)],
        MenuAction::Toggle => spec_toggle_commands(probe),
        MenuAction::Ignore => Seq::empty(),
    }
}

/// Menu dispatcher: decide what one menu selection does, given what a probe
/// of the main window reports.
///
/// The "quit" item issues exactly one process-termination command with exit
/// code 0 and never touches the window; an unrecognized identifier issues no
/// command at all. Only the "toggle" item's decision depends on the probe.
pub fn menu_commands(id: &str, probe: WindowProbe) -> (r: Vec<Command>)
    ensures
        r@ == spec_menu_commands(id@, probe),
        spec_classify(id@) == MenuAction::Quit ==> r@ == seq![Command::Exit(0)],
        spec_classify(id@) == MenuAction::Ignore ==> r@ == Seq::<Command>::empty(),
{
    match classify_menu_event(id) {
        MenuAction::Quit => {
            let mut r: Vec<Command> = Vec::new();
            r.push(Command::Exit(0));
            proof {
                assert(r@ =~= seq![Command::Exit(0)]);
            }
            r
        },
        MenuAction::Toggle => toggle_commands(probe),
        MenuAction::Ignore => {
            let r: Vec<Command> = Vec::new();
            proof {
                assert(r@ =~= Seq::<Command>::empty());
            }
            r
        },
    }
}

} // verus!
