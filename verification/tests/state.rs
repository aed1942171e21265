use sleep_block::inhibit::LockError;
use sleep_block::state::{LockState, SleepBlock, Status};

#[test]
fn starts_with_nothing_held() {
    let state = SleepBlock::new();
    let status = state.snapshot();

    assert!(!status.sleep_blocked);
    assert!(!status.screen_blocked);
    assert!(!status.keep_screen_awake);
    assert!(!status.keep_running_in_tray);
}

#[test]
fn tray_preferences_are_independent_of_the_locks() {
    let state = SleepBlock::new();

    let status = state.set_keep_running_in_tray(true);
    assert!(status.keep_running_in_tray);
    assert!(
        !status.sleep_blocked,
        "a window preference must not acquire an inhibitor"
    );
}

#[test]
fn toggle_acquires_then_releases_sleep_blocking() {
    let state = SleepBlock::new();

    let status = match state.toggle() {
        Ok(status) => status,
        Err(e) => {
            println!("SKIP: systemd-logind unavailable: {}", e.message());
            return;
        }
    };
    assert!(status.sleep_blocked);
    assert!(state.snapshot().sleep_blocked, "snapshot must agree");

    let status = state.toggle().expect("release should succeed");
    assert!(!status.sleep_blocked);
    assert!(!state.snapshot().sleep_blocked);
}

#[test]
fn screen_lock_is_not_held_while_sleep_blocking_is_off() {
    let state = SleepBlock::new();

    let status = state
        .set_keep_screen_awake(true)
        .expect("recording the preference should not fail");

    assert!(status.keep_screen_awake, "the preference is remembered");
    assert!(
        !status.screen_blocked,
        "but no screen lock is held without sleep blocking"
    );
}

#[test]
fn screen_lock_preference_survives_a_toggle_cycle() {
    let state = SleepBlock::new();

    state.set_keep_screen_awake(true).expect("set preference");
    let status = match state.toggle() {
        Ok(status) => status,
        Err(e) => {
            println!("SKIP: logind or ScreenSaver unavailable: {}", e.message());
            return;
        }
    };
    assert!(status.sleep_blocked);
    assert!(status.screen_blocked, "screen lock follows sleep blocking on");

    let status = state.toggle().expect("release");
    assert!(!status.sleep_blocked);
    assert!(!status.screen_blocked, "both released together");
    assert!(
        status.keep_screen_awake,
        "the preference must outlive the locks"
    );

    let status = state.toggle().expect("re-acquire");
    assert!(
        status.screen_blocked,
        "re-enabling must restore the screen lock"
    );
}

#[test]
fn screen_lock_can_be_toggled_while_sleep_blocking_is_on() {
    let state = SleepBlock::new();
    if let Err(e) = state.toggle() {
        println!("SKIP: logind unavailable: {}", e.message());
        return;
    }

    let status = match state.set_keep_screen_awake(true) {
        Ok(status) => status,
        Err(e) => {
            println!("SKIP: ScreenSaver unavailable: {}", e.message());
            return;
        }
    };
    assert!(status.screen_blocked, "acquired without another toggle");

    let status = state.set_keep_screen_awake(false).expect("disable");
    assert!(!status.screen_blocked, "released without another toggle");
    assert!(
        status.sleep_blocked,
        "sleep blocking is untouched by the screen-lock setting"
    );
}

#[test]
fn release_all_drops_both_locks() {
    let state = SleepBlock::new();
    let _ = state.set_keep_screen_awake(true);
    let _ = state.toggle();

    state.release_all();

    let status = state.snapshot();
    assert!(!status.sleep_blocked);
    assert!(!status.screen_blocked);
}

#[test]
fn clones_share_one_state() {
    // This is what makes the window and tray peers rather than two copies.
    let window = SleepBlock::new();
    let tray = window.clone();

    tray.set_keep_running_in_tray(true);
    assert!(
        window.snapshot().keep_running_in_tray,
        "a change through one handle must be visible through the other"
    );

    if let Err(e) = tray.toggle() {
        println!("SKIP: systemd-logind unavailable: {}", e.message());
        return;
    }
    assert!(
        window.snapshot().sleep_blocked,
        "a change through one handle must be visible through the other"
    );
}

fn all_off() -> Status {
    Status {
        sleep_blocked: false,
        screen_blocked: false,
        keep_screen_awake: false,
        keep_running_in_tray: false,
        window_hidden: false,
    }
}

#[test]
fn lock_state_starts_empty() {
    let state = LockState::new();
    assert_eq!(state.status(), all_off());
}

#[test]
fn a_failed_sleep_lock_changes_nothing() {
    let mut state = LockState::new();
    state.set_keep_running_in_tray(true);
    let before = state.status();
    match state.toggle() {
        Ok(status) => {
            assert!(status.sleep_blocked);
            assert_eq!(status, state.status());
        }
        Err(LockError::Sleep(_)) => assert_eq!(state.status(), before),
        Err(LockError::Screen(_)) => panic!("no screen lock was wanted"),
    }
}

#[test]
fn the_window_can_only_hide_into_the_tray() {
    let mut state = LockState::new();
    let status = state.set_window_hidden(true);
    assert!(!status.window_hidden, "no tray to hide into");

    state.set_keep_running_in_tray(true);
    let status = state.set_window_hidden(true);
    assert!(status.window_hidden);

    let status = state.set_keep_running_in_tray(false);
    assert!(!status.window_hidden, "switching the tray off shows the window");
    assert!(!status.keep_running_in_tray);
}

#[test]
fn preferences_survive_release_all() {
    let mut state = LockState::new();
    let _ = state.set_keep_screen_awake(true);
    state.set_keep_running_in_tray(true);
    state.release_all();
    let status = state.status();
    assert!(!status.sleep_blocked && !status.screen_blocked);
    assert!(status.keep_screen_awake);
    assert!(status.keep_running_in_tray);
}

#[test]
fn screen_preference_is_recorded_without_a_lock() {
    let mut state = LockState::new();
    let status = state.set_keep_screen_awake(true).expect("nothing to acquire");
    assert!(status.keep_screen_awake);
    assert!(!status.screen_blocked);
    let status = state.set_keep_screen_awake(false).expect("nothing to release");
    assert_eq!(status, all_off());
}
