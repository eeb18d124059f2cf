use vstd::prelude::*;

use crate::commands::Command;
use crate::events::WindowProbe;
use crate::menu::spec_menu_commands;

verus! {

/// Main-window visibility, as the toolkit tracks it. The core never caches
/// it: every toggle decision re-reads it immediately before acting.
#[derive(Clone, Copy, Debug, PartialEq, Eq, Structural)]
pub enum Visibility {
    Visible,
    Hidden,
}

/// The opposite visibility.
pub open spec fn flipped(v: Visibility) -> Visibility {
    match v {
        Visibility::Visible => Visibility::Hidden,
        Visibility::Hidden => Visibility::Visible,
    }
}

/// How one command, carried out successfully by the toolkit, changes the
/// window's visibility. Focusing, forcing the menu open, and terminating the
/// process leave visibility as it is.
pub open spec fn apply_command(v: Visibility, c: Command) -> Visibility {
    match c {
        Command::Hide => Visibility::Hidden,
        Command::Show => Visibility::Visible,
        _ => v,
    }
}

/// The visibility after the toolkit carries out a command sequence in order.
pub open spec fn apply_commands(v: Visibility, cs: Seq<Command>) -> Visibility
    decreases cs.len(),
{
    if cs.len() == 0 {
        v
    } else {
        apply_commands(apply_command(v, cs[0]), cs.drop_first())
    }
}

/// What a successful probe of a present window in state `v` reports.
pub open spec fn probe_of(v: Visibility) -> WindowProbe {
    match v {
        Visibility::Visible => WindowProbe::Reported(true),
        Visibility::Hidden => WindowProbe::Reported(false),
    }
}

/// One toggle round: a "toggle" menu selection reaches the dispatcher, the
/// present main window's visibility is read successfully, and the toolkit
/// carries out every command the dispatcher issues.
pub open spec fn toggle_round(v: Visibility) -> Visibility {
    apply_commands(v, spec_menu_commands("toggle"@, probe_of(v)))
}

/// The visibility after `n` toggle rounds.
pub open spec fn toggle_rounds(v: Visibility, n: nat) -> Visibility
    decreases n,
{
    if n == 0 {
        v
    } else {
        toggle_round(toggle_rounds(v, (n - 1) as nat))
    }
}

/// One toggle round on a present window with a successful visibility read
/// always flips visibility: a visible window ends hidden, a hidden one ends
/// visible (shown, then focused).
pub proof fn lemma_toggle_round_flips(v: Visibility)
    ensures
        toggle_round(v) == flipped(v),
{
    reveal_strlit("toggle");
    reveal_strlit("quit");
    reveal_with_fuel(apply_commands, 3);
    assert("toggle"@.len() == 6);
    assert("quit"@.len() == 4);
    assert("toggle"@ != "quit"@);
    let cs = spec_menu_commands("toggle"@, probe_of(v));
    match v {
        Visibility::Visible => {
            assert(cs =~= seq![Command::Hide]);
            assert(cs.drop_first() =~= Seq::<Command>::empty());
        },
        Visibility::Hidden => {
            assert(cs =~= seq![Command::Show, Command::Focus]);
            assert(cs.drop_first() =~= seq![Command::Focus]);
            assert(cs.drop_first().drop_first() =~= Seq::<Command>::empty());
        },
    }
}

/// Over any number of toggle rounds on a present window with successful
/// reads, visibility alternates strictly: starting from `Visible`, the
/// states run `Hidden, Visible, Hidden, Visible, …`, so after `n` rounds the
/// window is visible exactly when `n` is even.
pub proof fn lemma_toggle_alternation(n: nat)
    ensures
        toggle_rounds(Visibility::Visible, n) == (if n % 2 == 0 {
            Visibility::Visible
        } else {
            Visibility::Hidden
        }),
    decreases n,
{
    if n > 0 {
        lemma_toggle_alternation((n - 1) as nat);
        lemma_toggle_round_flips(toggle_rounds(Visibility::Visible, (n - 1) as nat));
    }
}

} // verus!
