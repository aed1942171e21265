//! What the StatusNotifierItem tray shows and does.
//!
//! The tray service runs on its own thread, so it shares state with the other
//! surfaces through a [`SleepBlock`] handle rather than owning any lock
//! itself. This module decides the menu, the tooltip and the icon state from
//! that state, and carries out menu actions; the tray service only renders
//! them.

use vstd::prelude::*;
use crate::icon::{decode_all, pixmap_view, pixmaps_of, png_bytes, Pixmap};
use crate::inhibit::LockError;
use crate::presence::GuiPresence;
use crate::state::{SleepBlock, Status};

verus! {

/// The tray's id on the bus.
pub const TRAY_ID: &'static str = "sleep-block";

/// The tray's title, also the tooltip title.
pub const TRAY_TITLE: &'static str = "Sleep Block";

/// What a menu item does when activated.
#[derive(Debug, Clone, Copy, PartialEq, Eq, Structural)]
pub enum MenuAction {
    /// Bring the window back by launching a GUI.
    ShowWindow,
    /// Turn sleep blocking on or off.
    ToggleSleep,
    /// Flip the keep-screen-on preference.
    ToggleKeepScreenAwake,
    /// Flip the hide-to-tray preference.
    ToggleKeepRunningInTray,
    /// Release every lock and stop the application.
    Quit,
}

/// One line of the tray menu.
#[derive(Debug)]
pub enum MenuEntry {
    /// A plain item, with an optional themed icon name (empty for none).
    Standard { label: String, icon_name: String, action: MenuAction },
    /// An item with a check mark.
    Checkmark { label: String, checked: bool, action: MenuAction },
    /// A separator line.
    Separator,
}

/// The mathematical content of a [`MenuEntry`].
pub enum MenuLine {
    Standard { label: Seq<char>, icon_name: Seq<char>, action: MenuAction },
    Checkmark { label: Seq<char>, checked: bool, action: MenuAction },
    Separator,
}

impl View for MenuEntry {
    type V = MenuLine;

    open spec fn view(&self) -> MenuLine {
        match self {
            MenuEntry::Standard { label, icon_name, action } => MenuLine::Standard {
                label: label@,
                icon_name: icon_name@,
                action: *action,
            },
            MenuEntry::Checkmark { label, checked, action } => MenuLine::Checkmark {
                label: label@,
                checked: *checked,
                action: *action,
            },
            MenuEntry::Separator => MenuLine::Separator,
        }
    }
}

/// What the caller has to do after a menu action, beyond what the action did
/// to the shared state.
#[derive(Debug, Clone, Copy, PartialEq, Eq, Structural)]
pub enum TrayEffect {
    /// Nothing more.
    Nothing,
    /// Start a GUI process: that is how a hidden window is shown.
    LaunchGui,
    /// Stop the application; the locks are already released.
    Exit,
}

/// The label of the sleep toggle: it names what a click will do.
pub open spec fn toggle_label(sleep_blocked: bool) -> Seq<char> {
    if sleep_blocked {
        "Allow sleeping"@
    } else {
        "Keep system awake"@
    }
}

/// The items every menu has, after the optional "Show window" block.
pub open spec fn common_menu(status: Status) -> Seq<MenuLine> {
    seq![
        MenuLine::Standard {
            label: toggle_label(status.sleep_blocked),
            icon_name: ""@,
            action: MenuAction::ToggleSleep,
        },
        MenuLine::Checkmark {
            label: "Also keep screen on"@,
            checked: status.keep_screen_awake,
            action: MenuAction::ToggleKeepScreenAwake,
        },
        MenuLine::Checkmark {
            label: "Keep running in tray when closed"@,
            checked: status.keep_running_in_tray,
            action: MenuAction::ToggleKeepRunningInTray,
        },
        MenuLine::Separator,
        MenuLine::Standard {
            label: "Quit"@,
            icon_name: "application-exit"@,
            action: MenuAction::Quit,
        },
    ]
}

/// The tray menu for a state. "Show window" is offered only when closing
/// the window hides it (otherwise the window is already on screen), and then
/// first, followed by a separator, because a hidden window is what the user
/// most needs back. The toggle, the two preferences and Quit are always there.
pub open spec fn menu_lines(status: Status) -> Seq<MenuLine> {
    if status.keep_running_in_tray {
        seq![
            MenuLine::Standard {
                label: "Show window"@,
                icon_name: ""@,
                action: MenuAction::ShowWindow,
            },
            MenuLine::Separator,
        ] + common_menu(status)
    } else {
        common_menu(status)
    }
}

/// Whatever the state, the menu offers the sleep toggle, labelled with what
/// a click will do, and ends with Quit, so the application is never
/// unquittable from the tray. "Show window" comes first, followed by a
/// separator, exactly when hiding to the tray is enabled, and is absent
/// otherwise.
pub proof fn lemma_menu_shape(status: Status)
    ensures
        ({
            let m = menu_lines(status);
            let k: int = if status.keep_running_in_tray { 2 } else { 0 };
            &&& m.len() == k + 5
            &&& m[k] == (MenuLine::Standard {
                label: toggle_label(status.sleep_blocked),
                icon_name: ""@,
                action: MenuAction::ToggleSleep,
            })
            &&& m[k + 4] == (MenuLine::Standard {
                label: "Quit"@,
                icon_name: "application-exit"@,
                action: MenuAction::Quit,
            })
            &&& status.keep_running_in_tray ==> m[0] == (MenuLine::Standard {
                label: "Show window"@,
                icon_name: ""@,
                action: MenuAction::ShowWindow,
            }) && m[1] == MenuLine::Separator
            &&& !status.keep_running_in_tray ==> forall|i: int|
                0 <= i < m.len() ==> !(#[trigger] m[i] matches MenuLine::Standard { action: MenuAction::ShowWindow, .. })
        }),
{
}

/// The views of a list of entries.
pub open spec fn lines_of(entries: Seq<MenuEntry>) -> Seq<MenuLine> {
    entries.map_values(|e: MenuEntry| e@)
}

/// The tooltip text: a pending error wins; otherwise what is blocked.
pub open spec fn tool_tip_text(error: Option<Seq<char>>, status: Status) -> Seq<char> {
    match error {
        Some(e) => e,
        None => if status.sleep_blocked && status.screen_blocked {
            "Sleep and screen lock are blocked"@
        } else if status.sleep_blocked {
            "Sleep is blocked"@
        } else {
            "The system can sleep normally"@
        },
    }
}

fn standard(label: &str, icon_name: &str, action: MenuAction) -> (e: MenuEntry)
    ensures
        e@ == (MenuLine::Standard { label: label@, icon_name: icon_name@, action }),
{
    MenuEntry::Standard {
        label: String::from_str(label),
        icon_name: String::from_str(icon_name),
        action,
    }
}

fn checkmark(label: &str, checked: bool, action: MenuAction) -> (e: MenuEntry)
    ensures
        e@ == (MenuLine::Checkmark { label: label@, checked, action }),
{
    MenuEntry::Checkmark { label: String::from_str(label), checked, action }
}

/// The tray menu for `status`; see [`menu_lines`].
pub fn menu_for(status: Status) -> (items: Vec<MenuEntry>)
    ensures
        lines_of(items@) =~= menu_lines(status),
{
    let mut items: Vec<MenuEntry> = Vec::new();
    if status.keep_running_in_tray {
        items.push(standard("Show window", "", MenuAction::ShowWindow));
        items.push(MenuEntry::Separator);
    }
    let toggle = if status.sleep_blocked {
        "Allow sleeping"
    } else {
        "Keep system awake"
    };
    items.push(standard(toggle, "", MenuAction::ToggleSleep));
    items.push(checkmark("Also keep screen on", status.keep_screen_awake, MenuAction::ToggleKeepScreenAwake));
    items.push(checkmark(
        "Keep running in tray when closed",
        status.keep_running_in_tray,
        MenuAction::ToggleKeepRunningInTray,
    ));
    items.push(MenuEntry::Separator);
    items.push(standard("Quit", "application-exit", MenuAction::Quit));
    items
}

/// The tooltip text for a pending error and a state; see [`tool_tip_text`].
pub fn tool_tip_for(error: &Option<String>, status: Status) -> (text: String)
    ensures
        text@ == tool_tip_text(
            match error {
                Some(e) => Some(e@),
                None => None,
            },
            status,
        ),
{
    match error {
        Some(e) => e.clone(),
        None => if status.sleep_blocked && status.screen_blocked {
            String::from_str("Sleep and screen lock are blocked")
        } else if status.sleep_blocked {
            String::from_str("Sleep is blocked")
        } else {
            String::from_str("The system can sleep normally")
        },
    }
}

/// What a failed action leaves for the tooltip: its message, or nothing once
/// an action succeeds.
pub open spec fn report<T>(r: Result<T, LockError>) -> Option<Seq<char>> {
    match r {
        Ok(_) => None,
        Err(e) => Some(e.prefix() + e.detail()),
    }
}

fn report_of<T>(r: Result<T, LockError>) -> (m: Option<String>)
    ensures
        match m {
            Some(s) => report(r) == Some(s@),
            None => report(r) is None,
        },
{
    match r {
        Ok(_) => None,
        Err(e) => Some(e.message()),
    }
}

/// The icon for a sleep state: every PNG of `active` that decodes while
/// sleep is blocked, of `idle` otherwise.
pub fn icon_for(sleep_blocked: bool, active: &[&[u8]], idle: &[&[u8]]) -> (icons: Vec<Pixmap>)
    ensures
        icons@.map_values(|p: Pixmap| pixmap_view(p)) == pixmaps_of(
            png_bytes(if sleep_blocked { active@ } else { idle@ }),
        ),
{
    if sleep_blocked {
        decode_all(active)
    } else {
        decode_all(idle)
    }
}

/// What "Show window" asks for: a GUI launch, unless one is already
/// running, so repeated clicks do not pile up windows.
pub open spec fn show_window_effect_spec(gui_running: bool) -> TrayEffect {
    if gui_running {
        TrayEffect::Nothing
    } else {
        TrayEffect::LaunchGui
    }
}

/// What "Show window" asks for; see [`show_window_effect_spec`].
pub fn show_window_effect(gui_running: bool) -> (e: TrayEffect)
    ensures
        e == show_window_effect_spec(gui_running),
{
    if gui_running {
        TrayEffect::Nothing
    } else {
        TrayEffect::LaunchGui
    }
}

/// One step of the watcher that keeps the tray service in step with the
/// shared state: the status to remember as published, and whether the tray
/// must re-publish because the state moved since it last did.
pub fn watch_step(published: Status, current: Status) -> (r: (Status, bool))
    ensures
        r.0 == current,
        r.1 == (current != published),
{
    (current, current != published)
}

/// The tray's state: a handle to the shared inhibitor state, whether a GUI is
/// running, and the last action's error, which the tooltip shows because the
/// tray has no other way to report one.
pub struct SleepTray {
    state: SleepBlock,
    gui: GuiPresence,
    error: Option<String>,
}

impl SleepTray {
    /// The error the tooltip is showing, if any.
    pub closed spec fn error(&self) -> Option<Seq<char>> {
        match self.error {
            Some(e) => Some(e@),
            None => None,
        }
    }

    /// The handle to the shared state that this tray acts on.
    pub closed spec fn shared_state(&self) -> SleepBlock {
        self.state
    }

    /// The GUI-presence flag that this tray consults.
    pub closed spec fn presence(&self) -> GuiPresence {
        self.gui
    }

    /// A tray over `state` with its own GUI-presence flag.
    pub fn new(state: SleepBlock) -> (t: SleepTray)
        ensures
            t.shared_state() == state,
            t.error() is None,
    {
        SleepTray::with_presence(state, GuiPresence::new())
    }

    /// A tray over `state` that consults `gui` before launching a window.
    pub fn with_presence(state: SleepBlock, gui: GuiPresence) -> (t: SleepTray)
        ensures
            t.shared_state() == state,
            t.presence() == gui,
            t.error() is None,
    {
        SleepTray { state, gui, error: None }
    }

    /// The shared state this tray acts on.
    pub fn state(&self) -> (s: &SleepBlock)
        ensures
            *s == self.shared_state(),
    {
        &self.state
    }

    /// The menu for the current state; see [`menu_lines`].
    pub fn menu(&self) -> (items: Vec<MenuEntry>)
        ensures
            exists|s: Status| s.wf() && lines_of(items@) =~= menu_lines(s),
    {
        let status = self.state.snapshot();
        let items = menu_for(status);
        assert(status.wf() && lines_of(items@) =~= menu_lines(status));
        items
    }

    /// The tooltip description for the current state; see
    /// [`tool_tip_text`].
    pub fn tool_tip(&self) -> (text: String)
        ensures
            exists|s: Status| s.wf() && text@ == tool_tip_text(self.error(), s),
    {
        let status = self.state.snapshot();
        let text = tool_tip_for(&self.error, status);
        assert(status.wf() && text@ == tool_tip_text(self.error(), status));
        text
    }

    /// Whether the icon should show the active (sleep blocked) state.
    pub fn icon_active(&self) -> bool {
        self.state.snapshot().sleep_blocked
    }

    /// The icon for the current state: every PNG of `active` that decodes
    /// while sleep is blocked, of `idle` otherwise. Decoding on demand keeps
    /// the icon in step with the state without a cache to invalidate.
    pub fn icon_pixmap(&self, active: &[&[u8]], idle: &[&[u8]]) -> (icons: Vec<Pixmap>)
        ensures
            exists|s: Status|
                #![trigger s.wf()]
                s.wf() && icons@.map_values(|p: Pixmap| pixmap_view(p)) == pixmaps_of(
                    png_bytes(if s.sleep_blocked { active@ } else { idle@ }),
                ),
    {
        let status = self.state.snapshot();
        let icons = icon_for(status.sleep_blocked, active, idle);
        assert(status.wf());
        icons
    }

    /// Records the outcome of the last toggle or screen-preference change for
    /// the tooltip: its message, or nothing once an action succeeds.
    pub fn record_outcome(&mut self, r: Result<Status, LockError>)
        ensures
            final(self).error() == report(r),
            final(self).shared_state() == old(self).shared_state(),
            final(self).presence() == old(self).presence(),
    {
        let ghost rr = r;
        self.error = report_of(r);
        assert(self.error() == report(rr));
    }

    /// A left click on the icon toggles sleep blocking directly, which is the
    /// whole point of the tray icon.
    pub fn activate(&mut self)
        ensures
            final(self).shared_state() == old(self).shared_state(),
            final(self).presence() == old(self).presence(),
            exists|r: Result<Status, LockError>|
                (r matches Ok(s) ==> s.wf()) && final(self).error() == report(r),
    {
        let r = self.state.toggle();
        let ghost rr = r;
        self.record_outcome(r);
        assert((rr matches Ok(s) ==> s.wf()) && self.error() == report(rr));
    }

    /// Carries out a menu action and says what the caller still has to do.
    ///
    /// The sleep toggle and the screen preference record their failure (or
    /// clear an old one) for the tooltip. "Show window" asks for a GUI launch
    /// unless one is already running, so repeated clicks do not pile up
    /// windows. Quit releases every lock before asking the caller to exit, so
    /// the locks go away at once rather than at process teardown.
    pub fn perform(&mut self, action: MenuAction) -> (effect: TrayEffect)
        ensures
            final(self).shared_state() == old(self).shared_state(),
            final(self).presence() == old(self).presence(),
            action == MenuAction::Quit <==> effect == TrayEffect::Exit,
            action == MenuAction::ShowWindow ==> exists|running: bool|
                effect == show_window_effect_spec(running),
            (action == MenuAction::ToggleSleep || action == MenuAction::ToggleKeepScreenAwake)
                ==> exists|r: Result<Status, LockError>| final(self).error() == report(r),
            !(action == MenuAction::ToggleSleep || action == MenuAction::ToggleKeepScreenAwake)
                ==> final(self).error() == old(self).error(),
            action != MenuAction::ShowWindow && action != MenuAction::Quit ==> effect
                == TrayEffect::Nothing,
    {
        match action {
            MenuAction::ShowWindow => show_window_effect(self.gui.is_running()),
            MenuAction::ToggleSleep => {
                let r = self.state.toggle();
                self.record_outcome(r);
                TrayEffect::Nothing
            },
            MenuAction::ToggleKeepScreenAwake => {
                let wanted = !self.state.snapshot().keep_screen_awake;
                let r = self.state.set_keep_screen_awake(wanted);
                self.record_outcome(r);
                TrayEffect::Nothing
            },
            MenuAction::ToggleKeepRunningInTray => {
                let wanted = !self.state.snapshot().keep_running_in_tray;
                let _ = self.state.set_keep_running_in_tray(wanted);
                TrayEffect::Nothing
            },
            MenuAction::Quit => {
                self.state.release_all();
                TrayEffect::Exit
            },
        }
    }
}

} // verus!
