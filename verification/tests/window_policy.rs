use sleep_block::state::SleepBlock;
use sleep_block::window_policy::{Frame, WindowAction, WindowPolicy};

fn idle() -> Frame {
    Frame {
        close_requested: false,
        quitting: false,
    }
}

fn closing() -> Frame {
    Frame {
        close_requested: true,
        quitting: false,
    }
}

#[test]
fn close_exits_when_keep_running_is_off() {
    let state = SleepBlock::new();
    let mut policy = WindowPolicy::new();

    let action = policy.step(&state, closing());

    // Nothing is cancelled, so the toolkit proceeds with the close.
    assert!(!action.cancel_close, "close must not be intercepted");
    assert!(!action.hide);
    assert!(!state.snapshot().window_hidden);
}

#[test]
fn close_hides_when_keep_running_is_on() {
    let state = SleepBlock::new();
    state.set_keep_running_in_tray(true);
    let mut policy = WindowPolicy::new();

    let action = policy.step(&state, closing());

    assert!(action.cancel_close, "close must be cancelled to stay alive");
    assert!(action.hide);
    assert!(action.refresh_tray, "the tray must learn the window is gone");
    assert!(state.snapshot().window_hidden);
}

#[test]
fn hidden_window_stays_hidden_on_later_frames() {
    let state = SleepBlock::new();
    state.set_keep_running_in_tray(true);
    let mut policy = WindowPolicy::new();

    let closing_action = policy.step(&state, closing());
    assert!(
        !closing_action.show,
        "the frame that hides the window must not also show it"
    );

    for frame in 0..5 {
        let action = policy.step(&state, idle());
        assert!(
            !action.show,
            "frame {frame} tried to show a window the user closed"
        );
        assert!(state.snapshot().window_hidden, "frame {frame} un-hid it");
    }
}

#[test]
fn tray_show_request_reopens_the_window() {
    let state = SleepBlock::new();
    state.set_keep_running_in_tray(true);
    let mut policy = WindowPolicy::new();
    policy.step(&state, closing());

    // What the tray's "Show window" item does.
    state.set_window_hidden(false);
    let action = policy.step(&state, idle());

    assert!(action.show, "the window should come back");
    assert!(!state.snapshot().window_hidden);
}

#[test]
fn show_is_requested_once_not_every_frame() {
    let state = SleepBlock::new();
    state.set_keep_running_in_tray(true);
    let mut policy = WindowPolicy::new();
    policy.step(&state, closing());
    state.set_window_hidden(false);

    assert!(policy.step(&state, idle()).show);
    assert!(!policy.step(&state, idle()).show, "show must not repeat");
}

#[test]
fn quit_button_bypasses_hide_on_close() {
    let state = SleepBlock::new();
    state.set_keep_running_in_tray(true);
    let mut policy = WindowPolicy::new();

    let action = policy.step(
        &state,
        Frame {
            close_requested: true,
            quitting: true,
        },
    );

    assert!(
        !action.cancel_close,
        "a deliberate quit must not be turned into a hide"
    );
    assert!(!action.hide);
}

#[test]
fn disabling_keep_running_reopens_a_hidden_window() {
    let state = SleepBlock::new();
    state.set_keep_running_in_tray(true);
    let mut policy = WindowPolicy::new();
    policy.step(&state, closing());
    assert!(state.snapshot().window_hidden);

    state.set_keep_running_in_tray(false);
    let action = policy.step(&state, idle());

    assert!(action.show, "the window must come back");
    assert!(!state.snapshot().window_hidden);
}

#[test]
fn repeated_closes_are_idempotent() {
    let state = SleepBlock::new();
    state.set_keep_running_in_tray(true);
    let mut policy = WindowPolicy::new();

    for _ in 0..3 {
        let action = policy.step(&state, closing());
        assert!(action.cancel_close);
        assert!(state.snapshot().window_hidden);
        assert!(!action.show, "a close must never also request a show");
    }
}

#[test]
fn an_idle_frame_asks_for_nothing() {
    let state = SleepBlock::new();
    let mut policy = WindowPolicy::default();
    assert_eq!(policy.step(&state, idle()), WindowAction::default());
}

#[test]
fn observe_reports_a_reappearance_once() {
    let state = SleepBlock::new();
    state.set_keep_running_in_tray(true);
    let hidden = state.set_window_hidden(true);
    let shown = state.set_window_hidden(false);
    let mut policy = WindowPolicy::new();

    let first = policy.observe(false, hidden);
    assert_eq!(first, WindowAction::default());
    let second = policy.observe(false, shown);
    assert!(second.show);
    assert!(!second.hide && !second.cancel_close && !second.refresh_tray);
    assert!(!policy.observe(false, shown).show);
}

#[test]
fn decides_hide_only_for_a_close_into_the_tray() {
    let state = SleepBlock::new();
    let off = state.snapshot();
    let on = state.set_keep_running_in_tray(true);
    assert!(WindowPolicy::decides_hide(closing(), on));
    assert!(!WindowPolicy::decides_hide(closing(), off));
    assert!(!WindowPolicy::decides_hide(idle(), on));
    assert!(!WindowPolicy::decides_hide(
        Frame {
            close_requested: true,
            quitting: true
        },
        on
    ));
}
