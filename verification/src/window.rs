use vstd::prelude::*;
use crate::color::Rgb;
use crate::settings::{
    BoolSettTypes, IntSettTypes, JsonSettings, Settings, SettingsView, json_from_settings,
    settings_from_json, with_bool, with_int,
};
use crate::theme::{JsonTheme, Theme, theme_from, is_first_named};
use crate::timer::{
    ActiveTimer, Notice, TimerAction, TimerEffect, TimerState, TmrConfig, apply_action,
    can_change, change_notice, change_notice_of, next_timer, next_timer_of,
};

verus! {

/// The state of the main window that the timer logic reads and writes: the settings it
/// shows, the colours it draws with, the timer, and the configured rounds and durations.
pub struct Main {
    pub settings: Settings,
    pub theme: Theme,
    pub timer: TimerState,
    pub tmr_config: TmrConfig,
}

/// What a [`Main`] holds.
pub struct MainView {
    pub settings: SettingsView,
    pub theme: Theme,
    pub timer: TimerState,
    pub tmr_config: TmrConfig,
}

impl View for Main {
    type V = MainView;

    open spec fn view(&self) -> MainView {
        MainView {
            settings: self.settings@,
            theme: self.theme,
            timer: self.timer,
            tmr_config: self.tmr_config,
        }
    }
}

/// The colour of the progress arc for the running timer.
pub open spec fn round_color(th: Theme, a: ActiveTimer) -> Rgb {
    match a {
        ActiveTimer::Focus => th.focus_round,
        ActiveTimer::ShortBreak => th.short_round,
        ActiveTimer::LongBreak => th.long_round,
    }
}

/// The settings with the theme named `name`.
pub open spec fn with_theme(s: SettingsView, name: Seq<char>) -> SettingsView {
    SettingsView { theme: name, ..s }
}

impl Main {
    /// Shows the settings read from a settings file.
    pub fn set_settings(&mut self, settings: &JsonSettings)
        ensures
            final(self)@ == (MainView { settings: settings_from_json(settings@), ..old(self)@ }),
    {
        self.settings = Settings::from_json(settings);
    }

    /// The settings file to write for the settings shown, with the default shortcuts.
    pub fn save_settings(&self) -> (res: JsonSettings)
        ensures
            res@ == json_from_settings(self@.settings),
    {
        self.settings.to_json()
    }

    /// An on/off setting was clicked while showing `val`: it becomes `!val`.
    pub fn bool_changed(&mut self, set_type: BoolSettTypes, val: bool)
        ensures
            final(self)@ == (MainView { settings: with_bool(old(self)@.settings, set_type, !val), ..old(self)@ }),
    {
        self.settings.set_bool(set_type, !val);
    }

    /// A numeric setting was set to `val`.
    pub fn int_changed(&mut self, set_type: IntSettTypes, val: i32)
        ensures
            final(self)@ == (MainView { settings: with_int(old(self)@.settings, set_type, val), ..old(self)@ }),
    {
        self.settings.set_int(set_type, val);
    }

    /// Theme `theme`, at index `idx` of the list, was chosen: the settings name it and the
    /// window draws with its colours.
    pub fn theme_changed(&mut self, idx: i32, theme: &JsonTheme)
        ensures
            final(self)@ == (MainView {
                settings: with_theme(old(self)@.settings, theme.name@),
                theme: theme_from(idx, theme),
                ..old(self)@
            }),
    {
        self.settings.theme = theme.name.clone();
        self.theme = Theme::from_json(idx, theme);
    }

    /// The colour of the progress arc for the running timer.
    pub fn round_color(&self) -> (res: Rgb)
        ensures
            res == round_color(self.theme, self.timer.active_timer),
    {
        match self.timer.active_timer {
            ActiveTimer::Focus => self.theme.focus_round,
            ActiveTimer::ShortBreak => self.theme.short_round,
            ActiveTimer::LongBreak => self.theme.long_round,
        }
    }

    /// The current timer ends: the next one starts with its full time, and the notification
    /// to show says what comes now.
    pub fn change_timer(&mut self) -> (n: Notice)
        requires
            can_change(old(self).timer),
        ensures
            final(self)@ == (MainView { timer: next_timer(old(self).timer, old(self).tmr_config), ..old(self)@ }),
            n@ == change_notice(old(self).timer, old(self).tmr_config),
    {
        let n = change_notice_of(&self.timer, &self.tmr_config);
        self.timer = next_timer_of(&self.timer, &self.tmr_config);
        n
    }

    /// Performs a timer action and says what the window is to do next.
    pub fn action_timer(&mut self, action: TimerAction) -> (eff: TimerEffect)
        requires
            action == TimerAction::Skip ==> can_change(old(self).timer),
        ensures
            final(self)@ == (MainView { timer: apply_action(old(self).timer, old(self).tmr_config, action), ..old(self)@ }),
            action == TimerAction::Start ==> eff is StartTicking,
            action == TimerAction::Stop ==> eff is StopTicking,
            action == TimerAction::Reset ==> eff is StopAndRedrawFull,
            action == TimerAction::Skip ==> (eff matches TimerEffect::Notify(n)
                && n@ == change_notice(old(self).timer, old(self).tmr_config)),
    {
        match action {
            TimerAction::Start => {
                self.timer.running = true;
                TimerEffect::StartTicking
            },
            TimerAction::Stop => {
                self.timer.running = false;
                TimerEffect::StopTicking
            },
            TimerAction::Reset => {
                self.timer.running = false;
                self.timer.remaining_time = self.timer.target_time;
                TimerEffect::StopAndRedrawFull
            },
            TimerAction::Skip => TimerEffect::Notify(self.change_timer()),
        }
    }
}

/// The ids of the three global shortcuts.
#[derive(Clone, Copy, PartialEq, Eq, Debug, Structural)]
pub struct HotKeyIds {
    pub toggle: u32,
    pub reset: u32,
    pub skip: u32,
}

/// The action for a shortcut event: on release, the toggle shortcut stops a running timer and
/// starts a stopped one, the reset shortcut resets and the skip shortcut skips; the toggle is
/// looked for first, then reset, then skip. Presses and other ids do nothing.
pub open spec fn hotkey_action(ids: HotKeyIds, released: bool, id: u32, running: bool) -> Option<TimerAction> {
    if !released {
        None
    } else if id == ids.toggle {
        Some(if running { TimerAction::Stop } else { TimerAction::Start })
    } else if id == ids.reset {
        Some(TimerAction::Reset)
    } else if id == ids.skip {
        Some(TimerAction::Skip)
    } else {
        None
    }
}

impl HotKeyIds {
    /// The action for a shortcut event with id `id`, released or pressed, while the timer is
    /// running or not.
    pub fn action_for(&self, released: bool, id: u32, running: bool) -> (res: Option<TimerAction>)
        ensures
            res == hotkey_action(*self, released, id, running),
    {
        if !released {
            None
        } else if id == self.toggle {
            if running {
                Some(TimerAction::Stop)
            } else {
                Some(TimerAction::Start)
            }
        } else if id == self.reset {
            Some(TimerAction::Reset)
        } else if id == self.skip {
            Some(TimerAction::Skip)
        } else {
            None
        }
    }
}

/// Releasing the toggle shortcut flips whether the timer runs, and changes nothing else.
pub proof fn lemma_toggle_flips(ids: HotKeyIds, t: TimerState, c: TmrConfig)
    ensures
        hotkey_action(ids, true, ids.toggle, t.running) matches Some(a)
            && apply_action(t, c, a) == (TimerState { running: !t.running, ..t }),
{
}

/// Choosing a theme and saving the settings writes its name, and when the settings are read
/// back the theme found by that name is the one chosen, provided no earlier theme in the list
/// has the same name.
pub proof fn lemma_theme_persists(s: SettingsView, themes: Seq<JsonTheme>, i: int)
    requires
        0 <= i < themes.len(),
        forall|j: int| 0 <= j < i ==> themes[j].name@ != themes[i].name@,
    ensures
        json_from_settings(with_theme(s, themes[i].name@)).theme == themes[i].name@,
        is_first_named(themes, settings_from_json(json_from_settings(with_theme(s, themes[i].name@))).theme, i),
{
}

/// The progress arc is drawn in the focus colour during a focus round, the short-break colour
/// during a short break and the long-break colour during a long break.
pub proof fn lemma_round_colours(th: Theme)
    ensures
        round_color(th, ActiveTimer::Focus) == th.focus_round,
        round_color(th, ActiveTimer::ShortBreak) == th.short_round,
        round_color(th, ActiveTimer::LongBreak) == th.long_round,
{
}

/// Choosing a theme changes the theme named in the settings and nothing else there.
pub proof fn lemma_with_theme(s: SettingsView, name: Seq<char>)
    ensures
        with_theme(s, name).theme == name,
        with_theme(s, name) == (SettingsView { theme: name, ..s }),
        settings_from_json(json_from_settings(with_theme(s, name))).theme == name,
{
}

/// Only a released shortcut acts: a press never yields an action. On release the toggle
/// shortcut stops a running timer and starts a stopped one, the reset shortcut resets, the skip
/// shortcut skips (the toggle taking precedence, then reset), and any other id does nothing.
pub proof fn lemma_hotkey_dispatch(ids: HotKeyIds, id: u32, running: bool)
    ensures
        hotkey_action(ids, false, id, running) is None,
        id == ids.toggle && running ==> hotkey_action(ids, true, id, running) == Some(TimerAction::Stop),
        id == ids.toggle && !running ==> hotkey_action(ids, true, id, running) == Some(TimerAction::Start),
        id != ids.toggle && id == ids.reset ==> hotkey_action(ids, true, id, running) == Some(TimerAction::Reset),
        id != ids.toggle && id != ids.reset && id == ids.skip ==> hotkey_action(ids, true, id, running) == Some(TimerAction::Skip),
        id != ids.toggle && id != ids.reset && id != ids.skip ==> hotkey_action(ids, true, id, running) is None,
{
}

} // verus!
