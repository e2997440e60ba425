use tray_shell::window::{
    close_request_actions, hide_actions, main_window_label, show_step, toggle_actions,
    ShowPhase, WindowAction, WindowState, FIRST_DELAY_MS, FOCUS_DELAY_MS, RETRY_DELAY_MS,
};

fn state(visible: bool, minimized: bool) -> WindowState {
    WindowState { visible, minimized }
}

#[test]
fn show_starts_by_unminimizing_only_a_minimized_window() {
    let (actions, next) = show_step(ShowPhase::Start, state(false, true));
    assert_eq!(
        actions,
        [
            WindowAction::Unminimize,
            WindowAction::Show,
            WindowAction::Wait(FIRST_DELAY_MS),
        ]
    );
    assert_eq!(next, ShowPhase::Settle);

    let (actions, next) = show_step(ShowPhase::Start, state(false, false));
    assert_eq!(actions, [WindowAction::Show, WindowAction::Wait(FIRST_DELAY_MS)]);
    assert_eq!(next, ShowPhase::Settle);
}

#[test]
fn show_on_a_visible_window_skips_the_recovery() {
    let (actions, next) = show_step(ShowPhase::Settle, state(true, false));
    assert!(actions.is_empty());
    assert_eq!(next, ShowPhase::Focus);
}

#[test]
fn show_recovers_once_when_still_invisible() {
    let (actions, next) = show_step(ShowPhase::Settle, state(false, false));
    assert_eq!(
        actions,
        [
            WindowAction::Center,
            WindowAction::Show,
            WindowAction::Wait(RETRY_DELAY_MS),
        ]
    );
    assert_eq!(next, ShowPhase::Focus);
}

#[test]
fn show_focuses_whatever_was_observed() {
    for visible in [false, true] {
        for minimized in [false, true] {
            let (actions, next) = show_step(ShowPhase::Focus, state(visible, minimized));
            assert_eq!(
                actions,
                [WindowAction::SetFocus, WindowAction::Wait(FOCUS_DELAY_MS)]
            );
            assert_eq!(next, ShowPhase::Report);
        }
    }
}

#[test]
fn show_ends_after_the_diagnostic_observation() {
    let (actions, next) = show_step(ShowPhase::Report, state(true, false));
    assert!(actions.is_empty());
    assert_eq!(next, ShowPhase::Done);
    let (actions, next) = show_step(ShowPhase::Done, state(true, false));
    assert!(actions.is_empty());
    assert_eq!(next, ShowPhase::Done);
}

#[test]
fn a_full_show_run_focuses_once_and_retries_at_most_once() {
    for first_visible in [false, true] {
        let mut phase = ShowPhase::Start;
        let mut all_actions: Vec<WindowAction> = Vec::new();
        let mut steps: u32 = 0;
        while phase != ShowPhase::Done {
            // the window stays as first observed until the recovery would run
            let (actions, next) = show_step(phase, state(first_visible, false));
            all_actions.extend(actions);
            phase = next;
            steps += 1;
            assert!(steps <= 4);
        }
        let focuses = all_actions.iter().filter(|a| **a == WindowAction::SetFocus).count();
        assert_eq!(focuses, 1);
        let centers = all_actions.iter().filter(|a| **a == WindowAction::Center).count();
        assert_eq!(centers, if first_visible { 0 } else { 1 });
    }
}

#[test]
fn hide_is_one_unconditional_hide() {
    assert_eq!(hide_actions(), [WindowAction::Hide]);
    // deciding to hide does not depend on the current state: repeating it
    // prescribes the same single hide, which leaves a hidden window hidden
    assert_eq!(hide_actions(), hide_actions());
}

#[test]
fn toggle_hides_a_visible_window_and_raises_a_hidden_one() {
    assert_eq!(toggle_actions(true), [WindowAction::Hide]);
    assert_eq!(
        toggle_actions(false),
        [
            WindowAction::Unminimize,
            WindowAction::Show,
            WindowAction::SetFocus,
        ]
    );
}

#[test]
fn close_request_on_the_main_window_hides_instead_of_destroying() {
    assert_eq!(main_window_label(), "main");
    assert_eq!(
        close_request_actions("main"),
        [WindowAction::PreventClose, WindowAction::Hide]
    );
}

#[test]
fn close_request_on_any_other_window_proceeds() {
    assert!(close_request_actions("settings").is_empty());
    assert!(close_request_actions("").is_empty());
    assert!(close_request_actions("Main").is_empty());
}
