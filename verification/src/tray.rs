use vstd::prelude::*;

use crate::commands::Command;
use crate::events::{MouseButton, MouseButtonState, TrayEvent};

verus! {

/// The tray controller's policy: only a right-button press forces the
/// context menu visible. Left clicks are intentionally inert — the tray is
/// configured not to open its menu on left click — and so is every other
/// button, button state, and non-click event.
pub open spec fn spec_tray_commands(e: TrayEvent) -> Seq<Command> {
    if e == (TrayEvent::Click {
        button: MouseButton::Right,
        button_state: MouseButtonState::Down,
    }) {
        seq![Command::ShowMenu]
    } else {
        Seq::empty()
    }
}

/// Tray controller: decide what one tray-icon event does.
///
/// A click with the right button going down issues exactly one command to
/// force the menu visible; any other click combination or event issues no
/// command at all.
pub fn on_tray_event(e: TrayEvent) -> (r: Vec<Command>)
    ensures
        r@ == spec_tray_commands(e),
        (e == (TrayEvent::Click {
            button: MouseButton::Right,
            button_state: MouseButtonState::Down,
        })) ==> r@ == seq![Command::ShowMenu],
        (e != (TrayEvent::Click {
            button: MouseButton::Right,
            button_state: MouseButtonState::Down,
        })) ==> r@ == Seq::<Command>::empty(),
{
    let mut r: Vec<Command> = Vec::new();
    match e {
        TrayEvent::Click {
            button: MouseButton::Right,
            button_state: MouseButtonState::Down,
        } => {
            r.push(Command::ShowMenu);
            proof {
                assert(r@ =~= seq![Command::ShowMenu]);
            }
        },
        _ => {
            proof {
                assert(r@ =~= Seq::<Command>::empty());
            }
        },
    }
    r
}

} // verus!
