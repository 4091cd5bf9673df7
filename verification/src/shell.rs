use vstd::prelude::*;

use crate::command::{command_of, Command, CommandView};
use crate::config::{config_json, with_setting, Config};
use crate::text::{chars_of, opt_chars, same_chars};

verus! {

/// How long the clipboard is left alone between two checks while the tray
/// icon flashes, in nanoseconds.
pub const CLIPBOARD_CHECK_INTERVAL: u64 = 800_000_000;

/// How long the tray icon stays shown or hidden while it flashes, in
/// nanoseconds.
pub const FLASH_INTERVAL: u64 = 400_000_000;

/// The least time between two saves of the window size, in nanoseconds.
pub const RESIZE_SAVE_INTERVAL: u64 = 500_000_000;

/// What the window and tray code is asked to do.
pub enum ShellAction {
    SetAlwaysOnTop(bool),
    MinimizeWindow,
    SetMaximized(bool),
    ShowWindow,
    HideWindow,
    FocusWindow,
    /// End the process at once.
    ExitProcess,
    /// Leave the event loop.
    ExitEventLoop,
    SetClipboard(String),
    ResizeWindow(u32, u32),
    /// Load the stored settings and hand them to `Shell::apply_setting`
    /// with this key and value.
    ApplySetting(String, String),
    SetAutoStart(bool),
    /// Write this text to the settings file.
    SaveConfig(String),
    /// Show the tray icon's normal picture.
    ShowTrayIcon,
    /// Show no tray picture.
    HideTrayIcon,
    ShowTrayMenu,
    /// Load the stored settings, set this window size in them and save them.
    RecordSize(u32, u32),
}

/// An action, with its texts as character sequences.
pub enum ShellActionView {
    SetAlwaysOnTop(bool),
    MinimizeWindow,
    SetMaximized(bool),
    ShowWindow,
    HideWindow,
    FocusWindow,
    ExitProcess,
    ExitEventLoop,
    SetClipboard(Seq<char>),
    ResizeWindow(u32, u32),
    ApplySetting(Seq<char>, Seq<char>),
    SetAutoStart(bool),
    SaveConfig(Seq<char>),
    ShowTrayIcon,
    HideTrayIcon,
    ShowTrayMenu,
    RecordSize(u32, u32),
}

impl View for ShellAction {
    type V = ShellActionView;

    open spec fn view(&self) -> ShellActionView {
        match self {
            ShellAction::SetAlwaysOnTop(b) => ShellActionView::SetAlwaysOnTop(*b),
            ShellAction::MinimizeWindow => ShellActionView::MinimizeWindow,
            ShellAction::SetMaximized(b) => ShellActionView::SetMaximized(*b),
            ShellAction::ShowWindow => ShellActionView::ShowWindow,
            ShellAction::HideWindow => ShellActionView::HideWindow,
            ShellAction::FocusWindow => ShellActionView::FocusWindow,
            ShellAction::ExitProcess => ShellActionView::ExitProcess,
            ShellAction::ExitEventLoop => ShellActionView::ExitEventLoop,
            ShellAction::SetClipboard(t) => ShellActionView::SetClipboard(t@),
            ShellAction::ResizeWindow(w, h) => ShellActionView::ResizeWindow(*w, *h),
            ShellAction::ApplySetting(k, v) => ShellActionView::ApplySetting(k@, v@),
            ShellAction::SetAutoStart(b) => ShellActionView::SetAutoStart(*b),
            ShellAction::SaveConfig(t) => ShellActionView::SaveConfig(t@),
            ShellAction::ShowTrayIcon => ShellActionView::ShowTrayIcon,
            ShellAction::HideTrayIcon => ShellActionView::HideTrayIcon,
            ShellAction::ShowTrayMenu => ShellActionView::ShowTrayMenu,
            ShellAction::RecordSize(w, h) => ShellActionView::RecordSize(*w, *h),
        }
    }
}

/// The actions of a list, as views.
pub open spec fn actions_view(a: Seq<ShellAction>) -> Seq<ShellActionView> {
    a.map_values(|x: ShellAction| x@)
}

/// What the window looks like when a page message arrives.
#[derive(Clone, Copy)]
pub struct WindowFacts {
    pub visible: bool,
    pub maximized: bool,
}

/// A click on the tray icon.
#[derive(Clone, Copy)]
pub enum TrayClick {
    Left,
    Right,
    Other,
}

/// A window event that the shell reacts to.
#[derive(Clone, Copy)]
pub enum WindowEvent {
    CloseRequested,
    Focused(bool),
    Resized(u32, u32),
    Other,
}

/// The state of the window and the tray icon between events. Times are in
/// nanoseconds on a clock that never goes back.
pub struct Shell {
    pub pinned: bool,
    pub close_to_tray: bool,
    pub flash_active: bool,
    pub flash_shown: bool,
    pub last_copied: String,
    pub last_resize_save: u64,
    pub last_flash: u64,
    pub last_clip_check: u64,
}

/// The shell state, with the copied text as a character sequence.
pub struct ShellView {
    pub pinned: bool,
    pub close_to_tray: bool,
    pub flash_active: bool,
    pub flash_shown: bool,
    pub last_copied: Seq<char>,
    pub last_resize_save: u64,
    pub last_flash: u64,
    pub last_clip_check: u64,
}

impl View for Shell {
    type V = ShellView;

    open spec fn view(&self) -> ShellView {
        ShellView {
            pinned: self.pinned,
            close_to_tray: self.close_to_tray,
            flash_active: self.flash_active,
            flash_shown: self.flash_shown,
            last_copied: self.last_copied@,
            last_resize_save: self.last_resize_save,
            last_flash: self.last_flash,
            last_clip_check: self.last_clip_check,
        }
    }
}

/// The time from `since` to `now`, or zero when `now` is earlier.
pub open spec fn elapsed(now: u64, since: u64) -> int {
    if now >= since {
        now - since
    } else {
        0
    }
}

/// The state and actions after a page message.
pub open spec fn after_command(s: ShellView, c: CommandView, w: WindowFacts) -> (
    ShellView,
    Seq<ShellActionView>,
) {
    match c {
        CommandView::Pin => (
            ShellView { pinned: !s.pinned, ..s },
            seq![ShellActionView::SetAlwaysOnTop(!s.pinned)],
        ),
        CommandView::Minimize => (s, seq![ShellActionView::MinimizeWindow]),
        CommandView::Maximize => (s, seq![ShellActionView::SetMaximized(!w.maximized)]),
        CommandView::Close => (s, seq![close_action(s.close_to_tray, true)]),
        CommandView::Copy(t) => (
            ShellView { last_copied: t, flash_active: s.flash_active || !w.visible, ..s },
            seq![ShellActionView::SetClipboard(t)],
        ),
        CommandView::Resize(width, height) => (
            s,
            seq![ShellActionView::ResizeWindow(width, height)],
        ),
        CommandView::Setting(k, v) => (s, seq![ShellActionView::ApplySetting(k, v)]),
        CommandView::Ignore => (s, Seq::empty()),
    }
}

/// What closing does: hide the window when it closes to the tray, else end
/// the process (from the page's button) or the event loop (from the system).
pub open spec fn close_action(close_to_tray: bool, from_page: bool) -> ShellActionView {
    if close_to_tray {
        ShellActionView::HideWindow
    } else if from_page {
        ShellActionView::ExitProcess
    } else {
        ShellActionView::ExitEventLoop
    }
}

/// Bringing the window back from the tray: show it, focus it, stop flashing
/// and show the normal tray picture.
pub open spec fn restore_actions() -> Seq<ShellActionView> {
    seq![ShellActionView::ShowWindow, ShellActionView::FocusWindow, ShellActionView::ShowTrayIcon]
}

/// The state and actions after one turn of the flashing timer at `now`, with
/// `clipboard` the clipboard text when it was read in this turn.
pub open spec fn after_flash_tick(s: ShellView, now: u64, clipboard: Option<Seq<char>>) -> (
    ShellView,
    Seq<ShellActionView>,
) {
    if !s.flash_active {
        (s, Seq::empty())
    } else {
        let check = elapsed(now, s.last_clip_check) > CLIPBOARD_CHECK_INTERVAL;
        let changed = check && clipboard is Some && clipboard->0 != s.last_copied;
        let s1 = ShellView {
            last_clip_check: if check {
                now
            } else {
                s.last_clip_check
            },
            flash_active: !changed,
            ..s
        };
        let a1: Seq<ShellActionView> = if changed {
            seq![ShellActionView::ShowTrayIcon]
        } else {
            Seq::empty()
        };
        if elapsed(now, s.last_flash) > FLASH_INTERVAL {
            let s2 = ShellView { last_flash: now, flash_shown: !s.flash_shown, ..s1 };
            let a2 = if s.flash_shown {
                ShellActionView::ShowTrayIcon
            } else {
                ShellActionView::HideTrayIcon
            };
            (s2, a1.push(a2))
        } else {
            (s1, a1)
        }
    }
}

/// The state and actions after a window event at `now`.
pub open spec fn after_window_event(s: ShellView, event: WindowEvent, now: u64) -> (
    ShellView,
    Seq<ShellActionView>,
) {
    match event {
        WindowEvent::CloseRequested => (s, seq![close_action(s.close_to_tray, false)]),
        WindowEvent::Focused(true) => (
            ShellView { flash_active: false, ..s },
            seq![ShellActionView::ShowTrayIcon],
        ),
        WindowEvent::Resized(w, h) => if elapsed(now, s.last_resize_save) > RESIZE_SAVE_INTERVAL {
            (ShellView { last_resize_save: now, ..s }, seq![ShellActionView::RecordSize(w, h)])
        } else {
            (s, Seq::empty())
        },
        _ => (s, Seq::empty()),
    }
}

/// The state and actions after a click on the tray icon.
pub open spec fn after_tray_click(s: ShellView, click: TrayClick) -> (ShellView, Seq<ShellActionView>) {
    match click {
        TrayClick::Left => (ShellView { flash_active: false, ..s }, restore_actions()),
        TrayClick::Right => (s, seq![ShellActionView::ShowTrayMenu]),
        TrayClick::Other => (s, Seq::empty()),
    }
}

impl Shell {
    /// The state at start: pinned on top, not flashing, nothing copied, all
    /// timers started at `now`.
    pub fn new(close_to_tray: bool, now: u64) -> (s: Shell)
        ensures
            s@ == (ShellView {
                pinned: true,
                close_to_tray,
                flash_active: false,
                flash_shown: false,
                last_copied: Seq::empty(),
                last_resize_save: now,
                last_flash: now,
                last_clip_check: now,
            }),
    {
        Shell {
            pinned: true,
            close_to_tray,
            flash_active: false,
            flash_shown: false,
            last_copied: String::new(),
            last_resize_save: now,
            last_flash: now,
            last_clip_check: now,
        }
    }

    /// Reacts to a message from the page.
    pub fn handle_command(&mut self, command: Command, window: WindowFacts) -> (acts: Vec<
        ShellAction,
    >)
        ensures
            (final(self)@, actions_view(acts@)) == after_command(old(self)@, command@, window),
    {
        let mut acts: Vec<ShellAction> = Vec::new();
        match command {
            Command::Pin => {
                let was = self.pinned;
                self.pinned = !was;
                acts.push(ShellAction::SetAlwaysOnTop(!was));
            },
            Command::Minimize => {
                acts.push(ShellAction::MinimizeWindow);
            },
            Command::Maximize => {
                acts.push(ShellAction::SetMaximized(!window.maximized));
            },
            Command::Close => {
                if self.close_to_tray {
                    acts.push(ShellAction::HideWindow);
                } else {
                    acts.push(ShellAction::ExitProcess);
                }
            },
            Command::Copy(text) => {
                self.last_copied = text.clone();
                acts.push(ShellAction::SetClipboard(text));
                if !window.visible {
                    self.flash_active = true;
                }
            },
            Command::Resize(w, h) => {
                acts.push(ShellAction::ResizeWindow(w, h));
            },
            Command::Setting(k, v) => {
                acts.push(ShellAction::ApplySetting(k, v));
            },
            Command::Ignore => {},
        }
        assert(actions_view(acts@) =~= after_command(old(self)@, command@, window).1);
        acts
    }

    /// Applies a setting from the page to the stored settings `cfg`: starting
    /// with the system is switched as asked, closing to the tray takes effect
    /// at once, and the settings are saved in every case.
    pub fn apply_setting(&mut self, cfg: &mut Config, key: &str, value: &str) -> (acts: Vec<
        ShellAction,
    >)
        ensures
            final(cfg)@ == with_setting(old(cfg)@, key@, value@),
            final(self)@ == (if key@ == "closeToTray"@ {
                ShellView { close_to_tray: final(cfg)@.close_to_tray, ..old(self)@ }
            } else {
                old(self)@
            }),
            actions_view(acts@) == (if key@ == "autoStart"@ {
                seq![
                    ShellActionView::SetAutoStart(final(cfg)@.auto_start),
                    ShellActionView::SaveConfig(config_json(final(cfg)@, true)),
                ]
            } else {
                seq![ShellActionView::SaveConfig(config_json(final(cfg)@, true))]
            }),
    {
        cfg.apply_setting(key, value);
        let k = chars_of(key);
        let mut acts: Vec<ShellAction> = Vec::new();
        if same_chars(&k, &chars_of("autoStart")) {
            acts.push(ShellAction::SetAutoStart(cfg.auto_start));
        }
        if same_chars(&k, &chars_of("closeToTray")) {
            self.close_to_tray = cfg.close_to_tray;
        }
        acts.push(ShellAction::SaveConfig(cfg.to_json_pretty()));
        proof {
            if key@ == "autoStart"@ {
                assert(actions_view(acts@) =~= seq![
                    ShellActionView::SetAutoStart(cfg@.auto_start),
                    ShellActionView::SaveConfig(config_json(cfg@, true)),
                ]);
            } else {
                assert(actions_view(acts@) =~= seq![
                    ShellActionView::SaveConfig(config_json(cfg@, true)),
                ]);
            }
        }
        acts
    }

    /// Whether the flashing timer wants the clipboard read at `now`.
    pub fn clipboard_check_due(&self, now: u64) -> (due: bool)
        ensures
            due == (self.flash_active && elapsed(now, self.last_clip_check)
                > CLIPBOARD_CHECK_INTERVAL),
    {
        self.flash_active && now >= self.last_clip_check && now - self.last_clip_check
            > CLIPBOARD_CHECK_INTERVAL
    }

    /// One turn of the flashing timer. While the icon flashes, a clipboard
    /// that no longer holds the copied text stops the flashing, and the icon
    /// is hidden and shown in turn.
    pub fn flash_tick(&mut self, now: u64, clipboard: Option<String>) -> (acts: Vec<ShellAction>)
        ensures
            (final(self)@, actions_view(acts@)) == after_flash_tick(
                old(self)@,
                now,
                opt_chars(clipboard),
            ),
    {
        let ghost clip = opt_chars(clipboard);
        let mut acts: Vec<ShellAction> = Vec::new();
        if !self.flash_active {
            assert(actions_view(acts@) =~= Seq::<ShellActionView>::empty());
            return acts;
        }
        let was_shown = self.flash_shown;
        let check = now >= self.last_clip_check && now - self.last_clip_check
            > CLIPBOARD_CHECK_INTERVAL;
        if check {
            self.last_clip_check = now;
            match clipboard {
                Some(current) => {
                    let differs = !same_chars(&chars_of(current.as_str()), &chars_of(self.last_copied.as_str()));
                    if differs {
                        self.flash_active = false;
                        acts.push(ShellAction::ShowTrayIcon);
                    }
                },
                None => {},
            }
        }
        let ghost a1 = actions_view(acts@);
        if now >= self.last_flash && now - self.last_flash > FLASH_INTERVAL {
            self.last_flash = now;
            if was_shown {
                acts.push(ShellAction::ShowTrayIcon);
            } else {
                acts.push(ShellAction::HideTrayIcon);
            }
            self.flash_shown = !was_shown;
            assert(actions_view(acts@) =~= a1.push(actions_view(acts@).last()));
        }
        proof {
            let expected = after_flash_tick(old(self)@, now, clip);
            assert(actions_view(acts@) =~= expected.1);
        }
        acts
    }

    /// A click on the tray icon: the left button brings the window back, the
    /// right button opens the tray menu.
    pub fn tray_click(&mut self, click: TrayClick) -> (acts: Vec<ShellAction>)
        ensures
            (final(self)@, actions_view(acts@)) == after_tray_click(old(self)@, click),
            final(self)@ == (match click {
                TrayClick::Left => ShellView { flash_active: false, ..old(self)@ },
                _ => old(self)@,
            }),
            actions_view(acts@) == (match click {
                TrayClick::Left => restore_actions(),
                TrayClick::Right => seq![ShellActionView::ShowTrayMenu],
                TrayClick::Other => Seq::empty(),
            }),
    {
        let mut acts: Vec<ShellAction> = Vec::new();
        match click {
            TrayClick::Left => {
                acts = self.restore();
            },
            TrayClick::Right => {
                acts.push(ShellAction::ShowTrayMenu);
            },
            TrayClick::Other => {},
        }
        assert(actions_view(acts@) =~= (match click {
            TrayClick::Left => restore_actions(),
            TrayClick::Right => seq![ShellActionView::ShowTrayMenu],
            TrayClick::Other => Seq::empty(),
        }));
        acts
    }

    fn restore(&mut self) -> (acts: Vec<ShellAction>)
        ensures
            final(self)@ == (ShellView { flash_active: false, ..old(self)@ }),
            actions_view(acts@) == restore_actions(),
    {
        let mut acts: Vec<ShellAction> = Vec::new();
        acts.push(ShellAction::ShowWindow);
        acts.push(ShellAction::FocusWindow);
        self.flash_active = false;
        acts.push(ShellAction::ShowTrayIcon);
        assert(actions_view(acts@) =~= restore_actions());
        acts
    }

    /// An entry chosen in the tray menu: `restore` brings the window back,
    /// `quit` ends the process.
    pub fn menu_choice(&mut self, id: &str) -> (acts: Vec<ShellAction>)
        ensures
            final(self)@ == (if id@ == "restore"@ {
                ShellView { flash_active: false, ..old(self)@ }
            } else {
                old(self)@
            }),
            actions_view(acts@) == (if id@ == "restore"@ {
                restore_actions()
            } else if id@ == "quit"@ {
                seq![ShellActionView::ExitProcess]
            } else {
                Seq::empty()
            }),
    {
        let i = chars_of(id);
        if same_chars(&i, &chars_of("restore")) {
            return self.restore();
        }
        let mut acts: Vec<ShellAction> = Vec::new();
        if same_chars(&i, &chars_of("quit")) {
            acts.push(ShellAction::ExitProcess);
        }
        assert(actions_view(acts@) =~= (if id@ == "quit"@ {
            seq![ShellActionView::ExitProcess]
        } else {
            Seq::empty()
        }));
        acts
    }

    /// A window event at `now`: closing hides the window or ends the loop,
    /// gaining focus stops the flashing, and a new size is recorded unless one
    /// was recorded less than `RESIZE_SAVE_INTERVAL` ago.
    pub fn window_event(&mut self, event: WindowEvent, now: u64) -> (acts: Vec<ShellAction>)
        ensures
            (final(self)@, actions_view(acts@)) == after_window_event(old(self)@, event, now),
            final(self)@ == (match event {
                WindowEvent::Focused(true) => ShellView { flash_active: false, ..old(self)@ },
                WindowEvent::Resized(_, _) => if elapsed(now, old(self)@.last_resize_save)
                    > RESIZE_SAVE_INTERVAL {
                    ShellView { last_resize_save: now, ..old(self)@ }
                } else {
                    old(self)@
                },
                _ => old(self)@,
            }),
            actions_view(acts@) == (match event {
                WindowEvent::CloseRequested => seq![close_action(old(self)@.close_to_tray, false)],
                WindowEvent::Focused(true) => seq![ShellActionView::ShowTrayIcon],
                WindowEvent::Resized(w, h) => if elapsed(now, old(self)@.last_resize_save)
                    > RESIZE_SAVE_INTERVAL {
                    seq![ShellActionView::RecordSize(w, h)]
                } else {
                    Seq::empty()
                },
                _ => Seq::empty(),
            }),
    {
        let mut acts: Vec<ShellAction> = Vec::new();
        match event {
            WindowEvent::CloseRequested => {
                if self.close_to_tray {
                    acts.push(ShellAction::HideWindow);
                } else {
                    acts.push(ShellAction::ExitEventLoop);
                }
            },
            WindowEvent::Focused(focused) => {
                if focused {
                    self.flash_active = false;
                    acts.push(ShellAction::ShowTrayIcon);
                }
            },
            WindowEvent::Resized(w, h) => {
                if now >= self.last_resize_save && now - self.last_resize_save
                    > RESIZE_SAVE_INTERVAL {
                    self.last_resize_save = now;
                    acts.push(ShellAction::RecordSize(w, h));
                }
            },
            WindowEvent::Other => {},
        }
        proof {
            let expected: Seq<ShellActionView> = match event {
                WindowEvent::CloseRequested => seq![close_action(old(self)@.close_to_tray, false)],
                WindowEvent::Focused(true) => seq![ShellActionView::ShowTrayIcon],
                WindowEvent::Resized(w, h) => if elapsed(now, old(self)@.last_resize_save)
                    > RESIZE_SAVE_INTERVAL {
                    seq![ShellActionView::RecordSize(w, h)]
                } else {
                    Seq::empty()
                },
                _ => Seq::empty(),
            };
            assert(actions_view(acts@) =~= expected);
        }
        acts
    }
}

/// Pinning twice puts the window back as it was: the first message flips
/// "always on top", the second flips it back.
pub proof fn pin_twice_restores(s: ShellView, w1: WindowFacts, w2: WindowFacts)
    ensures
        ({
            let (s1, a1) = after_command(s, CommandView::Pin, w1);
            let (s2, a2) = after_command(s1, CommandView::Pin, w2);
            &&& s2 == s
            &&& a1 == seq![ShellActionView::SetAlwaysOnTop(!s.pinned)]
            &&& a2 == seq![ShellActionView::SetAlwaysOnTop(s.pinned)]
        }),
{
}

/// Copying while the window is hidden starts the flashing; copying while it
/// is shown leaves the flashing as it was. Either way the text is remembered
/// and put on the clipboard.
pub proof fn copy_flashes_only_when_hidden(s: ShellView, t: Seq<char>, w: WindowFacts)
    ensures
        ({
            let (s1, a1) = after_command(s, CommandView::Copy(t), w);
            &&& s1.flash_active == (s.flash_active || !w.visible)
            &&& s1.last_copied == t
            &&& a1 == seq![ShellActionView::SetClipboard(t)]
        }),
{
}

/// While nothing stops it, the tray icon is hidden and shown in turn: two
/// timer turns, each more than `FLASH_INTERVAL` after the last switch and
/// neither reading the clipboard, give one hide and one show, in the order
/// that the current phase decides, and leave the phase as it was.
pub proof fn flash_alternates(s: ShellView, t1: u64, t2: u64)
    requires
        s.flash_active,
        elapsed(t1, s.last_flash) > FLASH_INTERVAL,
        elapsed(t2, t1) > FLASH_INTERVAL,
    ensures
        ({
            let (s1, a1) = after_flash_tick(s, t1, None);
            let (s2, a2) = after_flash_tick(s1, t2, None);
            &&& s2.flash_active
            &&& s2.flash_shown == s.flash_shown
            &&& a1 == seq![if s.flash_shown { ShellActionView::ShowTrayIcon } else { ShellActionView::HideTrayIcon }]
            &&& a2 == seq![if s.flash_shown { ShellActionView::HideTrayIcon } else { ShellActionView::ShowTrayIcon }]
        }),
{
    let (s1, a1) = after_flash_tick(s, t1, None);
    assert(a1 =~= seq![if s.flash_shown { ShellActionView::ShowTrayIcon } else { ShellActionView::HideTrayIcon }]);
    let (s2, a2) = after_flash_tick(s1, t2, None);
    assert(a2 =~= seq![if s.flash_shown { ShellActionView::HideTrayIcon } else { ShellActionView::ShowTrayIcon }]);
}

/// A clipboard that no longer holds the copied text, read when a check is
/// due, stops the flashing and shows the normal tray picture first; after that
/// the timer does nothing.
pub proof fn clipboard_change_stops_flashing(s: ShellView, now: u64, clip: Seq<char>, later: u64, c2: Option<Seq<char>>)
    requires
        s.flash_active,
        elapsed(now, s.last_clip_check) > CLIPBOARD_CHECK_INTERVAL,
        clip != s.last_copied,
    ensures
        ({
            let (s1, a1) = after_flash_tick(s, now, Some(clip));
            let (s2, a2) = after_flash_tick(s1, later, c2);
            &&& !s1.flash_active
            &&& a1[0] == ShellActionView::ShowTrayIcon
            &&& s2 == s1
            &&& a2 == Seq::<ShellActionView>::empty()
        }),
{
}

/// With closing to the tray switched on, neither the page's close button nor
/// the system's close request ends anything: both hide the window.
pub proof fn close_to_tray_only_hides(s: ShellView, w: WindowFacts)
    requires
        s.close_to_tray,
    ensures
        after_command(s, CommandView::Close, w).1 == seq![ShellActionView::HideWindow],
        close_action(s.close_to_tray, false) == ShellActionView::HideWindow,
{
}

/// The clipboard is checked on its own schedule: a timer turn on which no
/// check is due leaves the time of the last check as it was, and a turn on
/// which one is due records it. Flashing goes on unless a check finds a
/// clipboard text other than the copied one, which stops it at once.
pub proof fn clipboard_check_keeps_its_schedule(s: ShellView, now: u64, clip: Option<Seq<char>>)
    requires
        s.flash_active,
    ensures
        ({
            let (s1, a1) = after_flash_tick(s, now, clip);
            let due = elapsed(now, s.last_clip_check) > CLIPBOARD_CHECK_INTERVAL;
            &&& !due ==> s1.last_clip_check == s.last_clip_check && s1.flash_active
            &&& due ==> s1.last_clip_check == now
            &&& s1.last_copied == s.last_copied
            &&& (due && clip is Some && clip->0 != s.last_copied) ==> !s1.flash_active
                && a1.len() > 0 && a1[0] == ShellActionView::ShowTrayIcon
            &&& !(due && clip is Some && clip->0 != s.last_copied) ==> s1.flash_active
        }),
{
}

/// Timer turns between two checks do not put the next check off: after any
/// turn on which no check is due, a turn that comes more than
/// `CLIPBOARD_CHECK_INTERVAL` after the last check finds a changed clipboard
/// and stops the flashing.
pub proof fn quick_turns_do_not_delay_the_check(
    s: ShellView,
    t1: u64,
    c1: Option<Seq<char>>,
    t2: u64,
    clip: Seq<char>,
)
    requires
        s.flash_active,
        elapsed(t1, s.last_clip_check) <= CLIPBOARD_CHECK_INTERVAL,
        elapsed(t2, s.last_clip_check) > CLIPBOARD_CHECK_INTERVAL,
        clip != s.last_copied,
    ensures
        ({
            let (s1, a1) = after_flash_tick(s, t1, c1);
            let (s2, a2) = after_flash_tick(s1, t2, Some(clip));
            &&& s1.flash_active
            &&& !s2.flash_active
            &&& a2[0] == ShellActionView::ShowTrayIcon
        }),
{
    clipboard_check_keeps_its_schedule(s, t1, c1);
    let (s1, a1) = after_flash_tick(s, t1, c1);
    clipboard_check_keeps_its_schedule(s1, t2, Some(clip));
}

/// The page's messages that carry data hand it on unchanged and leave the
/// shell's state alone: a copy puts exactly its text on the clipboard, a
/// resize asks for exactly its size, and a setting is applied with exactly
/// its key and value.
pub proof fn commands_pass_their_data_on(
    s: ShellView,
    w: WindowFacts,
    t: Seq<char>,
    width: u32,
    height: u32,
    key: Seq<char>,
    value: Seq<char>,
)
    ensures
        after_command(s, CommandView::Copy(t), w).1 == seq![ShellActionView::SetClipboard(t)],
        after_command(s, CommandView::Resize(width, height), w) == (
            s,
            seq![ShellActionView::ResizeWindow(width, height)],
        ),
        after_command(s, CommandView::Setting(key, value), w) == (
            s,
            seq![ShellActionView::ApplySetting(key, value)],
        ),
{
}

/// A settings message from the page, with a key without `:`, is handed on to
/// be applied with exactly that key and value, whatever the key is.
pub proof fn page_settings_are_applied(
    s: ShellView,
    w: WindowFacts,
    key: Seq<char>,
    value: Seq<char>,
)
    requires
        forall|i: int| 0 <= i < key.len() ==> key[i] != ':',
    ensures
        after_command(s, command_of("cfg:"@ + key + ":"@ + value), w) == (
            s,
            seq![ShellActionView::ApplySetting(key, value)],
        ),
{
    crate::command::setting_message_carries_setting(key, value);
}

/// A new window size is recorded at most once per `RESIZE_SAVE_INTERVAL`:
/// a resize more than that after the last recorded one records exactly the
/// new size, and any resize sooner records nothing and changes nothing.
pub proof fn sizes_are_recorded_at_most_once_per_interval(
    s: ShellView,
    t1: u64,
    w1: u32,
    h1: u32,
    t2: u64,
    w2: u32,
    h2: u32,
)
    ensures
        ({
            let (s1, a1) = after_window_event(s, WindowEvent::Resized(w1, h1), t1);
            &&& elapsed(t1, s.last_resize_save) > RESIZE_SAVE_INTERVAL ==> a1 == seq![
                ShellActionView::RecordSize(w1, h1),
            ] && s1.last_resize_save == t1
            &&& elapsed(t1, s.last_resize_save) <= RESIZE_SAVE_INTERVAL ==> a1.len() == 0 && s1
                == s
            &&& (elapsed(t1, s.last_resize_save) > RESIZE_SAVE_INTERVAL && elapsed(t2, t1)
                <= RESIZE_SAVE_INTERVAL) ==> after_window_event(
                s1,
                WindowEvent::Resized(w2, h2),
                t2,
            ).1.len() == 0
        }),
{
}

/// Closing the window from the system hides it when it closes to the tray
/// and ends the event loop otherwise; gaining focus stops the flashing and
/// brings the normal tray picture back; nothing else changes.
pub proof fn close_and_focus(s: ShellView, now: u64)
    ensures
        after_window_event(s, WindowEvent::CloseRequested, now) == (s, seq![
            if s.close_to_tray { ShellActionView::HideWindow } else { ShellActionView::ExitEventLoop },
        ]),
        !after_window_event(s, WindowEvent::Focused(true), now).0.flash_active,
        after_window_event(s, WindowEvent::Focused(true), now).0.last_copied == s.last_copied,
        after_window_event(s, WindowEvent::Focused(true), now).1 == seq![ShellActionView::ShowTrayIcon],
        after_window_event(s, WindowEvent::Focused(false), now) == (s, Seq::<ShellActionView>::empty()),
{
}

/// A left click on the tray icon shows, focuses and stops the flashing; a
/// right click only opens the tray menu.
pub proof fn tray_clicks(s: ShellView)
    ensures
        !after_tray_click(s, TrayClick::Left).0.flash_active,
        after_tray_click(s, TrayClick::Left).1 == seq![
            ShellActionView::ShowWindow,
            ShellActionView::FocusWindow,
            ShellActionView::ShowTrayIcon,
        ],
        after_tray_click(s, TrayClick::Right) == (s, seq![ShellActionView::ShowTrayMenu]),
{
}

/// The window buttons: minimise minimises, maximise switches to the other of
/// maximised and normal, and none of them changes the shell's state.
pub proof fn window_buttons(s: ShellView, w: WindowFacts)
    ensures
        after_command(s, CommandView::Minimize, w) == (s, seq![ShellActionView::MinimizeWindow]),
        after_command(s, CommandView::Maximize, w) == (
            s,
            seq![ShellActionView::SetMaximized(!w.maximized)],
        ),
        after_command(s, CommandView::Close, w).0 == s,
        !s.close_to_tray ==> after_command(s, CommandView::Close, w).1 == seq![
            ShellActionView::ExitProcess,
        ],
{
}

} // verus!
