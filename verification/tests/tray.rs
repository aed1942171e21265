use sleep_block::icon::{decode_png, rgba_to_argb};
use sleep_block::inhibit::LockError;
use sleep_block::presence::GuiPresence;
use sleep_block::state::{SleepBlock, Status};
use sleep_block::tray::{
    icon_for, menu_for, show_window_effect, tool_tip_for, watch_step, MenuAction, MenuEntry,
    SleepTray, TrayEffect,
};

/// Reads the menu's labels in order. Separators become `None` so their
/// placement can be asserted too.
fn labels(tray: &SleepTray) -> Vec<Option<String>> {
    tray.menu()
        .into_iter()
        .map(|item| match item {
            MenuEntry::Standard { label, .. } => Some(label),
            MenuEntry::Checkmark { label, .. } => Some(label),
            MenuEntry::Separator => None,
        })
        .collect()
}

fn text(tray: &SleepTray) -> Vec<String> {
    labels(tray).into_iter().flatten().collect()
}

/// A 2x2 8-bit RGBA PNG: opaque red, half-transparent green, transparent
/// blue, opaque (200, 100, 50).
const RGBA_2X2: [u8; 79] = [
    137, 80, 78, 71, 13, 10, 26, 10, 0, 0, 0, 13, 73, 72, 68, 82, 0, 0, 0, 2, 0, 0, 0, 2, 8, 6, 0,
    0, 0, 114, 182, 13, 36, 0, 0, 0, 22, 73, 68, 65, 84, 120, 156, 99, 248, 207, 192, 240, 31, 8,
    27, 24, 64, 244, 137, 20, 163, 255, 0, 59, 144, 6, 218, 52, 206, 35, 187, 0, 0, 0, 0, 73, 69,
    78, 68, 174, 66, 96, 130,
];

/// A 1x1 8-bit RGB PNG: decodes, but is not RGBA.
const RGB_1X1: [u8; 69] = [
    137, 80, 78, 71, 13, 10, 26, 10, 0, 0, 0, 13, 73, 72, 68, 82, 0, 0, 0, 1, 0, 0, 0, 1, 8, 2, 0,
    0, 0, 144, 119, 83, 222, 0, 0, 0, 12, 73, 68, 65, 84, 120, 156, 99, 224, 18, 145, 3, 0, 0, 104,
    0, 61, 84, 8, 163, 247, 0, 0, 0, 0, 73, 69, 78, 68, 174, 66, 96, 130,
];

/// A 2x2 opaque 8-bit RGBA PNG of other colours.
const OPAQUE_2X2: [u8; 83] = [
    137, 80, 78, 71, 13, 10, 26, 10, 0, 0, 0, 13, 73, 72, 68, 82, 0, 0, 0, 2, 0, 0, 0, 2, 8, 6, 0,
    0, 0, 114, 182, 13, 36, 0, 0, 0, 26, 73, 68, 65, 84, 120, 156, 99, 224, 18, 145, 251, 175, 97,
    100, 243, 159, 193, 45, 32, 234, 63, 35, 19, 243, 127, 0, 47, 32, 5, 197, 125, 32, 36, 63, 0,
    0, 0, 0, 73, 69, 78, 68, 174, 66, 96, 130,
];

#[test]
fn show_window_is_absent_until_hide_on_close_is_enabled() {
    let tray = SleepTray::new(SleepBlock::new());

    assert!(
        !text(&tray).iter().any(|l| l.contains("Show window")),
        "offering to show an already-visible window would be noise"
    );
}

#[test]
fn show_window_is_the_first_item_once_enabled() {
    let state = SleepBlock::new();
    state.set_keep_running_in_tray(true);
    let tray = SleepTray::new(state);

    let items = text(&tray);
    assert_eq!(
        items.first().map(String::as_str),
        Some("Show window"),
        "a hidden window is what the user most needs back, so it goes first"
    );
}

#[test]
fn show_window_is_followed_by_a_separator() {
    let state = SleepBlock::new();
    state.set_keep_running_in_tray(true);
    let tray = SleepTray::new(state);

    let items = labels(&tray);
    assert_eq!(items.first(), Some(&Some("Show window".into())));
    assert_eq!(
        items.get(1),
        Some(&None),
        "the show item is separated from the toggles"
    );
}

#[test]
fn menu_always_offers_the_toggle_and_quit() {
    for keep_running in [false, true] {
        let state = SleepBlock::new();
        state.set_keep_running_in_tray(keep_running);
        let tray = SleepTray::new(state);
        let items = text(&tray);

        assert!(
            items.iter().any(|l| l.contains("keep screen on")),
            "screen-lock option missing (keep_running={keep_running})"
        );
        assert!(
            items.iter().any(|l| l == "Quit"),
            "quit missing (keep_running={keep_running}) — the app would be \
             unquittable from the tray"
        );
    }
}

#[test]
fn toggle_label_reflects_the_current_state() {
    let state = SleepBlock::new();
    let tray = SleepTray::new(state.clone());
    assert!(
        text(&tray).iter().any(|l| l == "Keep system awake"),
        "idle state should offer to start blocking"
    );

    if state.toggle().is_ok() && state.snapshot().sleep_blocked {
        assert!(
            text(&tray).iter().any(|l| l == "Allow sleeping"),
            "blocked state should offer to stop blocking"
        );
    } else {
        println!("SKIP: could not acquire a lock to check the active label");
    }
}

#[test]
fn icon_changes_with_the_sleep_state() {
    let state = SleepBlock::new();
    let tray = SleepTray::new(state.clone());
    let active: [&[u8]; 1] = [&OPAQUE_2X2];
    let idle: [&[u8]; 1] = [&RGBA_2X2];

    let idle_icons = tray.icon_pixmap(&active, &idle);
    assert!(!idle_icons.is_empty(), "an icon must always be published");

    if state.toggle().is_ok() && state.snapshot().sleep_blocked {
        let active_icons = tray.icon_pixmap(&active, &idle);
        assert_ne!(
            idle_icons[0].data, active_icons[0].data,
            "the icon must differ between states or it conveys nothing"
        );
    } else {
        println!("SKIP: could not acquire a lock to compare icons");
    }
}

#[test]
fn decoded_icons_are_square_and_sized() {
    let active: [&[u8]; 2] = [&OPAQUE_2X2, &RGB_1X1];
    let idle: [&[u8]; 2] = [&RGBA_2X2, &OPAQUE_2X2];
    for icon in SleepTray::new(SleepBlock::new()).icon_pixmap(&active, &idle) {
        assert_eq!(icon.width, icon.height, "tray icons should be square");
        assert_eq!(
            icon.data.len() as i32,
            icon.width * icon.height * 4,
            "ARGB32 payload must match the declared dimensions"
        );
    }
}

#[test]
fn decode_png_premultiplies_into_argb() {
    let icon = decode_png(&RGBA_2X2).expect("8-bit RGBA decodes");
    assert_eq!((icon.width, icon.height), (2, 2));
    assert_eq!(
        icon.data,
        vec![255, 255, 0, 0, 128, 0, 128, 0, 0, 0, 0, 0, 255, 200, 100, 50]
    );
}

#[test]
fn decode_png_rejects_what_is_not_rgba_png() {
    assert!(decode_png(&RGB_1X1).is_none(), "RGB is not RGBA");
    assert!(decode_png(&[]).is_none());
    assert!(decode_png(b"not a png at all").is_none());
    assert!(decode_png(&RGBA_2X2[..40]).is_none(), "a truncated file");
}

#[test]
fn undecodable_icons_are_skipped() {
    let state = SleepBlock::new();
    let tray = SleepTray::new(state);
    let set: [&[u8]; 3] = [&RGB_1X1, &RGBA_2X2, b"junk"];
    let icons = tray.icon_pixmap(&set, &set);
    assert_eq!(icons.len(), 1);
    assert_eq!(icons[0].width, 2);
}

#[test]
fn argb_conversion_formula() {
    assert_eq!(rgba_to_argb(&[10, 20, 30, 255]), vec![255, 10, 20, 30]);
    assert_eq!(rgba_to_argb(&[10, 20, 30, 0]), vec![0, 0, 0, 0]);
    // (200 * 51 + 127) / 255 = 40, (100 * 51 + 127) / 255 = 20.
    assert_eq!(rgba_to_argb(&[200, 100, 0, 51]), vec![51, 40, 20, 0]);
    // A trailing partial pixel is dropped.
    assert_eq!(rgba_to_argb(&[1, 2, 3, 255, 9, 9]), vec![255, 1, 2, 3]);
    assert!(rgba_to_argb(&[]).is_empty());
}

fn status(sleep: bool, screen: bool, keep_screen: bool, keep_running: bool) -> Status {
    Status {
        sleep_blocked: sleep,
        screen_blocked: screen,
        keep_screen_awake: keep_screen,
        keep_running_in_tray: keep_running,
        window_hidden: false,
    }
}

fn line_labels(items: &[MenuEntry]) -> Vec<Option<&str>> {
    items
        .iter()
        .map(|item| match item {
            MenuEntry::Standard { label, .. } => Some(label.as_str()),
            MenuEntry::Checkmark { label, .. } => Some(label.as_str()),
            MenuEntry::Separator => None,
        })
        .collect()
}

#[test]
fn the_full_menu_in_order() {
    let items = menu_for(status(true, true, true, true));
    assert_eq!(
        line_labels(&items),
        vec![
            Some("Show window"),
            None,
            Some("Allow sleeping"),
            Some("Also keep screen on"),
            Some("Keep running in tray when closed"),
            None,
            Some("Quit"),
        ]
    );
    assert!(matches!(
        &items[3],
        MenuEntry::Checkmark { checked: true, action: MenuAction::ToggleKeepScreenAwake, .. }
    ));
    assert!(matches!(
        &items[6],
        MenuEntry::Standard { icon_name, action: MenuAction::Quit, .. } if icon_name == "application-exit"
    ));

    let items = menu_for(status(false, false, false, false));
    assert_eq!(
        line_labels(&items),
        vec![
            Some("Keep system awake"),
            Some("Also keep screen on"),
            Some("Keep running in tray when closed"),
            None,
            Some("Quit"),
        ]
    );
    assert!(matches!(&items[1], MenuEntry::Checkmark { checked: false, .. }));
}

#[test]
fn tool_tip_describes_the_state_or_the_error() {
    assert_eq!(
        tool_tip_for(&None, status(true, true, true, false)),
        "Sleep and screen lock are blocked"
    );
    assert_eq!(tool_tip_for(&None, status(true, false, false, false)), "Sleep is blocked");
    assert_eq!(
        tool_tip_for(&None, status(false, false, true, false)),
        "The system can sleep normally"
    );
    assert_eq!(
        tool_tip_for(&Some(String::from("boom")), status(true, true, true, false)),
        "boom"
    );
}

#[test]
fn the_tooltip_starts_without_an_error() {
    let tray = SleepTray::new(SleepBlock::new());
    assert_eq!(tray.tool_tip(), "The system can sleep normally");
}

#[test]
fn a_failed_tray_toggle_shows_its_error() {
    let mut tray = SleepTray::new(SleepBlock::new());
    assert_eq!(tray.perform(MenuAction::ToggleSleep), TrayEffect::Nothing);
    match tray.state().snapshot().sleep_blocked {
        true => assert_eq!(tray.tool_tip(), "Sleep is blocked"),
        false => {
            let shown = tray.tool_tip();
            let expected = LockError::Sleep(String::new()).message();
            assert!(shown.starts_with(&expected), "got: {shown}");
        }
    }
    tray.perform(MenuAction::Quit);
}

#[test]
fn show_window_launches_only_when_no_gui_runs() {
    let gui = GuiPresence::new();
    let mut tray = SleepTray::with_presence(SleepBlock::new(), gui.clone());
    assert_eq!(tray.perform(MenuAction::ShowWindow), TrayEffect::LaunchGui);
    gui.set_running(true);
    assert_eq!(tray.perform(MenuAction::ShowWindow), TrayEffect::Nothing);
    gui.set_running(false);
    assert_eq!(tray.perform(MenuAction::ShowWindow), TrayEffect::LaunchGui);
}

#[test]
fn quit_releases_and_exits() {
    let state = SleepBlock::new();
    let mut tray = SleepTray::new(state.clone());
    let _ = state.toggle();
    assert_eq!(tray.perform(MenuAction::Quit), TrayEffect::Exit);
    let after = state.snapshot();
    assert!(!after.sleep_blocked && !after.screen_blocked);
}

#[test]
fn the_preference_items_flip_their_preference() {
    let state = SleepBlock::new();
    let mut tray = SleepTray::new(state.clone());
    tray.perform(MenuAction::ToggleKeepRunningInTray);
    assert!(state.snapshot().keep_running_in_tray);
    tray.perform(MenuAction::ToggleKeepRunningInTray);
    assert!(!state.snapshot().keep_running_in_tray);

    tray.perform(MenuAction::ToggleKeepScreenAwake);
    assert!(state.snapshot().keep_screen_awake, "recorded without a lock");
    assert_eq!(tray.tool_tip(), "The system can sleep normally");
    tray.perform(MenuAction::ToggleKeepScreenAwake);
    assert!(!state.snapshot().keep_screen_awake);
}

#[test]
fn the_icon_follows_the_sleep_state() {
    let active: [&[u8]; 1] = [&OPAQUE_2X2];
    let idle: [&[u8]; 2] = [&RGBA_2X2, &RGB_1X1];
    let on = icon_for(true, &active, &idle);
    let off = icon_for(false, &active, &idle);
    assert_eq!(on.len(), 1);
    assert_eq!(off.len(), 1);
    assert_eq!(on[0].data, decode_png(&OPAQUE_2X2).unwrap().data);
    assert_eq!(off[0].data, decode_png(&RGBA_2X2).unwrap().data);
    assert_ne!(on[0].data, off[0].data);
}

#[test]
fn show_window_launches_unless_a_gui_runs() {
    assert_eq!(show_window_effect(false), TrayEffect::LaunchGui);
    assert_eq!(show_window_effect(true), TrayEffect::Nothing);
}

#[test]
fn the_watcher_republishes_only_on_change() {
    let a = status(false, false, false, false);
    let b = status(true, false, false, false);
    assert_eq!(watch_step(a, a), (a, false));
    assert_eq!(watch_step(a, b), (b, true));
}

#[test]
fn recorded_outcomes_drive_the_tooltip() {
    let mut tray = SleepTray::new(SleepBlock::new());
    tray.record_outcome(Err(LockError::Sleep(String::from("denied"))));
    assert_eq!(tray.tool_tip(), "could not block sleep: denied");
    tray.record_outcome(Ok(status(false, false, false, false)));
    assert_eq!(tray.tool_tip(), "The system can sleep normally");
}
