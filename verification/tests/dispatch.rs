use tray_shell::commands::Command;
use tray_shell::events::{MouseButton, MouseButtonState, TrayEvent, WindowProbe};
use tray_shell::menu::{classify_menu_event, menu_commands, toggle_commands, MenuAction};
use tray_shell::tray::on_tray_event;

#[test]
fn classify_quit() {
    assert_eq!(classify_menu_event("quit"), MenuAction::Quit);
}

#[test]
fn classify_toggle() {
    assert_eq!(classify_menu_event("toggle"), MenuAction::Toggle);
}

#[test]
fn classify_is_case_sensitive() {
    assert_eq!(classify_menu_event("Quit"), MenuAction::Ignore);
    assert_eq!(classify_menu_event("TOGGLE"), MenuAction::Ignore);
}

#[test]
fn classify_empty_and_unknown() {
    assert_eq!(classify_menu_event(""), MenuAction::Ignore);
    assert_eq!(classify_menu_event("unknown_id"), MenuAction::Ignore);
    assert_eq!(classify_menu_event("quit "), MenuAction::Ignore);
}

#[test]
fn toggle_on_visible_window_hides_once() {
    let cmds = menu_commands("toggle", WindowProbe::Reported(true));
    assert_eq!(cmds, vec![Command::Hide]);
}

#[test]
fn toggle_on_hidden_window_shows_then_focuses() {
    let cmds = menu_commands("toggle", WindowProbe::Reported(false));
    assert_eq!(cmds, vec![Command::Show, Command::Focus]);
}

#[test]
fn toggle_on_absent_window_is_a_no_op() {
    let cmds = menu_commands("toggle", WindowProbe::Absent);
    assert_eq!(cmds, Vec::new());
}

#[test]
fn toggle_on_failed_read_attempts_show_and_focus() {
    let cmds = menu_commands("toggle", WindowProbe::ReadFailed);
    assert_eq!(cmds, vec![Command::Show, Command::Focus]);
}

#[test]
fn toggle_commands_match_the_dispatcher() {
    assert_eq!(toggle_commands(WindowProbe::Reported(true)), vec![Command::Hide]);
    assert_eq!(
        toggle_commands(WindowProbe::Reported(false)),
        vec![Command::Show, Command::Focus]
    );
    assert_eq!(toggle_commands(WindowProbe::Absent), Vec::new());
    assert_eq!(
        toggle_commands(WindowProbe::ReadFailed),
        vec![Command::Show, Command::Focus]
    );
}

#[test]
fn quit_exits_with_code_zero_and_touches_no_window() {
    assert_eq!(
        menu_commands("quit", WindowProbe::Reported(true)),
        vec![Command::Exit(0)]
    );
    assert_eq!(
        menu_commands("quit", WindowProbe::Reported(false)),
        vec![Command::Exit(0)]
    );
    assert_eq!(menu_commands("quit", WindowProbe::Absent), vec![Command::Exit(0)]);
    assert_eq!(
        menu_commands("quit", WindowProbe::ReadFailed),
        vec![Command::Exit(0)]
    );
}

#[test]
fn unknown_identifier_issues_no_command() {
    assert_eq!(
        menu_commands("unknown_id", WindowProbe::Reported(true)),
        Vec::new()
    );
    assert_eq!(
        menu_commands("unknown_id", WindowProbe::ReadFailed),
        Vec::new()
    );
    assert_eq!(menu_commands("", WindowProbe::Absent), Vec::new());
}

#[test]
fn right_down_click_forces_the_menu_once() {
    let cmds = on_tray_event(TrayEvent::Click {
        button: MouseButton::Right,
        button_state: MouseButtonState::Down,
    });
    assert_eq!(cmds, vec![Command::ShowMenu]);
}

#[test]
fn left_down_click_is_inert() {
    let cmds = on_tray_event(TrayEvent::Click {
        button: MouseButton::Left,
        button_state: MouseButtonState::Down,
    });
    assert_eq!(cmds, Vec::new());
}

#[test]
fn every_other_click_combination_is_inert() {
    let inert = [
        (MouseButton::Left, MouseButtonState::Up),
        (MouseButton::Left, MouseButtonState::Down),
        (MouseButton::Right, MouseButtonState::Up),
        (MouseButton::Middle, MouseButtonState::Up),
        (MouseButton::Middle, MouseButtonState::Down),
    ];
    for (button, button_state) in inert {
        let cmds = on_tray_event(TrayEvent::Click { button, button_state });
        assert_eq!(cmds, Vec::new());
    }
}

#[test]
fn non_click_tray_events_are_inert() {
    assert_eq!(on_tray_event(TrayEvent::Enter), Vec::new());
    assert_eq!(on_tray_event(TrayEvent::Move), Vec::new());
    assert_eq!(on_tray_event(TrayEvent::Leave), Vec::new());
}

#[test]
fn toggle_sequence_alternates_strictly() {
    // Start visible; each toggle round re-reads the current visibility and
    // the resulting states must run hidden, visible, hidden, visible, ...
    let mut visible = true;
    let mut states = Vec::new();
    for _ in 0..6 {
        let cmds = menu_commands("toggle", WindowProbe::Reported(visible));
        for c in cmds {
            match c {
                Command::Hide => visible = false,
                Command::Show => visible = true,
                _ => {}
            }
        }
        states.push(visible);
    }
    assert_eq!(states, vec![false, true, false, true, false, true]);
}
