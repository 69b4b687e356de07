use vstd::prelude::*;

verus! {

/// The global keyboard shortcuts as they are stored in the settings file.
pub struct GlobalShortcuts {
    pub call_timer_reset: String,
    pub call_timer_skip: String,
    pub call_timer_toggle: String,
}

/// What a [`GlobalShortcuts`] holds.
pub struct GlobalShortcutsView {
    pub call_timer_reset: Seq<char>,
    pub call_timer_skip: Seq<char>,
    pub call_timer_toggle: Seq<char>,
}

impl View for GlobalShortcuts {
    type V = GlobalShortcutsView;

    open spec fn view(&self) -> GlobalShortcutsView {
        GlobalShortcutsView {
            call_timer_reset: self.call_timer_reset@,
            call_timer_skip: self.call_timer_skip@,
            call_timer_toggle: self.call_timer_toggle@,
        }
    }
}

/// The shortcuts that are saved, since they cannot be changed yet:
/// Control+F2 resets, Control+F3 skips, Control+F1 starts or stops the timer.
pub open spec fn default_shortcuts() -> GlobalShortcutsView {
    GlobalShortcutsView {
        call_timer_reset: "Control+F2"@,
        call_timer_skip: "Control+F3"@,
        call_timer_toggle: "Control+F1"@,
    }
}

impl GlobalShortcuts {
    /// The shortcuts that are written to the settings file.
    pub fn defaults() -> (res: GlobalShortcuts)
        ensures
            res@ == default_shortcuts(),
    {
        GlobalShortcuts {
            call_timer_reset: String::from_str("Control+F2"),
            call_timer_skip: String::from_str("Control+F3"),
            call_timer_toggle: String::from_str("Control+F1"),
        }
    }
}

/// The settings as they are stored in the settings file.
pub struct JsonSettings {
    pub always_on_top: bool,
    pub auto_start_break_timer: bool,
    pub auto_start_work_timer: bool,
    pub break_always_on_top: bool,
    pub global_shortcuts: GlobalShortcuts,
    pub min_to_tray: bool,
    pub min_to_tray_on_close: bool,
    pub notifications: bool,
    pub theme: String,
    pub tick_sounds: bool,
    pub tick_sounds_during_break: bool,
    pub time_long_break: i32,
    pub time_short_break: i32,
    pub time_work: i32,
    pub volume: i32,
    pub work_rounds: i32,
}

/// What a [`JsonSettings`] holds.
pub struct JsonSettingsView {
    pub always_on_top: bool,
    pub auto_start_break_timer: bool,
    pub auto_start_work_timer: bool,
    pub break_always_on_top: bool,
    pub global_shortcuts: GlobalShortcutsView,
    pub min_to_tray: bool,
    pub min_to_tray_on_close: bool,
    pub notifications: bool,
    pub theme: Seq<char>,
    pub tick_sounds: bool,
    pub tick_sounds_during_break: bool,
    pub time_long_break: i32,
    pub time_short_break: i32,
    pub time_work: i32,
    pub volume: i32,
    pub work_rounds: i32,
}

impl View for JsonSettings {
    type V = JsonSettingsView;

    open spec fn view(&self) -> JsonSettingsView {
        JsonSettingsView {
            always_on_top: self.always_on_top,
            auto_start_break_timer: self.auto_start_break_timer,
            auto_start_work_timer: self.auto_start_work_timer,
            break_always_on_top: self.break_always_on_top,
            global_shortcuts: self.global_shortcuts@,
            min_to_tray: self.min_to_tray,
            min_to_tray_on_close: self.min_to_tray_on_close,
            notifications: self.notifications,
            theme: self.theme@,
            tick_sounds: self.tick_sounds,
            tick_sounds_during_break: self.tick_sounds_during_break,
            time_long_break: self.time_long_break,
            time_short_break: self.time_short_break,
            time_work: self.time_work,
            volume: self.volume,
            work_rounds: self.work_rounds,
        }
    }
}

/// The settings that the window shows and edits.
pub struct Settings {
    pub always_on_top: bool,
    pub auto_start_break_timer: bool,
    pub auto_start_work_timer: bool,
    pub break_always_on_top: bool,
    pub min_to_tray: bool,
    pub min_to_tray_on_close: bool,
    pub notifications: bool,
    pub theme: String,
    pub tick_sounds: bool,
    pub tick_sounds_during_break: bool,
    pub time_long_break: i32,
    pub time_short_break: i32,
    pub time_work: i32,
    pub volume: i32,
    pub work_rounds: i32,
}

/// What a [`Settings`] holds.
pub struct SettingsView {
    pub always_on_top: bool,
    pub auto_start_break_timer: bool,
    pub auto_start_work_timer: bool,
    pub break_always_on_top: bool,
    pub min_to_tray: bool,
    pub min_to_tray_on_close: bool,
    pub notifications: bool,
    pub theme: Seq<char>,
    pub tick_sounds: bool,
    pub tick_sounds_during_break: bool,
    pub time_long_break: i32,
    pub time_short_break: i32,
    pub time_work: i32,
    pub volume: i32,
    pub work_rounds: i32,
}

impl View for Settings {
    type V = SettingsView;

    open spec fn view(&self) -> SettingsView {
        SettingsView {
            always_on_top: self.always_on_top,
            auto_start_break_timer: self.auto_start_break_timer,
            auto_start_work_timer: self.auto_start_work_timer,
            break_always_on_top: self.break_always_on_top,
            min_to_tray: self.min_to_tray,
            min_to_tray_on_close: self.min_to_tray_on_close,
            notifications: self.notifications,
            theme: self.theme@,
            tick_sounds: self.tick_sounds,
            tick_sounds_during_break: self.tick_sounds_during_break,
            time_long_break: self.time_long_break,
            time_short_break: self.time_short_break,
            time_work: self.time_work,
            volume: self.volume,
            work_rounds: self.work_rounds,
        }
    }
}

/// The window settings that a settings file gives: every field but the shortcuts.
pub open spec fn settings_from_json(j: JsonSettingsView) -> SettingsView {
    SettingsView {
        always_on_top: j.always_on_top,
        auto_start_break_timer: j.auto_start_break_timer,
        auto_start_work_timer: j.auto_start_work_timer,
        break_always_on_top: j.break_always_on_top,
        min_to_tray: j.min_to_tray,
        min_to_tray_on_close: j.min_to_tray_on_close,
        notifications: j.notifications,
        theme: j.theme,
        tick_sounds: j.tick_sounds,
        tick_sounds_during_break: j.tick_sounds_during_break,
        time_long_break: j.time_long_break,
        time_short_break: j.time_short_break,
        time_work: j.time_work,
        volume: j.volume,
        work_rounds: j.work_rounds,
    }
}

/// The settings file written for the window settings: every field, with the default shortcuts.
pub open spec fn json_from_settings(s: SettingsView) -> JsonSettingsView {
    JsonSettingsView {
        always_on_top: s.always_on_top,
        auto_start_break_timer: s.auto_start_break_timer,
        auto_start_work_timer: s.auto_start_work_timer,
        break_always_on_top: s.break_always_on_top,
        global_shortcuts: default_shortcuts(),
        min_to_tray: s.min_to_tray,
        min_to_tray_on_close: s.min_to_tray_on_close,
        notifications: s.notifications,
        theme: s.theme,
        tick_sounds: s.tick_sounds,
        tick_sounds_during_break: s.tick_sounds_during_break,
        time_long_break: s.time_long_break,
        time_short_break: s.time_short_break,
        time_work: s.time_work,
        volume: s.volume,
        work_rounds: s.work_rounds,
    }
}

/// The on/off settings that the window can toggle.
#[derive(Clone, Copy, PartialEq, Eq, Debug, Structural)]
pub enum BoolSettTypes {
    AlwOnTop,
    AutoStrtBreakTim,
    AutoStrtWrkTim,
    BrkAlwOnTop,
    MinToTray,
    MinToTryCls,
    Notifications,
    TickSounds,
    TickSoundsBreak,
}

/// The numeric settings that the window can set.
#[derive(Clone, Copy, PartialEq, Eq, Debug, Structural)]
pub enum IntSettTypes {
    LongBreak,
    ShortBreak,
    Work,
    Volume,
    Rounds,
}

/// The value of one on/off setting.
pub open spec fn bool_setting(s: SettingsView, k: BoolSettTypes) -> bool {
    match k {
        BoolSettTypes::AlwOnTop => s.always_on_top,
        BoolSettTypes::AutoStrtBreakTim => s.auto_start_break_timer,
        BoolSettTypes::AutoStrtWrkTim => s.auto_start_work_timer,
        BoolSettTypes::BrkAlwOnTop => s.break_always_on_top,
        BoolSettTypes::MinToTray => s.min_to_tray,
        BoolSettTypes::MinToTryCls => s.min_to_tray_on_close,
        BoolSettTypes::Notifications => s.notifications,
        BoolSettTypes::TickSounds => s.tick_sounds,
        BoolSettTypes::TickSoundsBreak => s.tick_sounds_during_break,
    }
}

/// The settings with one on/off setting set to `v`.
pub open spec fn with_bool(s: SettingsView, k: BoolSettTypes, v: bool) -> SettingsView {
    match k {
        BoolSettTypes::AlwOnTop => SettingsView { always_on_top: v, ..s },
        BoolSettTypes::AutoStrtBreakTim => SettingsView { auto_start_break_timer: v, ..s },
        BoolSettTypes::AutoStrtWrkTim => SettingsView { auto_start_work_timer: v, ..s },
        BoolSettTypes::BrkAlwOnTop => SettingsView { break_always_on_top: v, ..s },
        BoolSettTypes::MinToTray => SettingsView { min_to_tray: v, ..s },
        BoolSettTypes::MinToTryCls => SettingsView { min_to_tray_on_close: v, ..s },
        BoolSettTypes::Notifications => SettingsView { notifications: v, ..s },
        BoolSettTypes::TickSounds => SettingsView { tick_sounds: v, ..s },
        BoolSettTypes::TickSoundsBreak => SettingsView { tick_sounds_during_break: v, ..s },
    }
}

/// The value of one numeric setting.
pub open spec fn int_setting(s: SettingsView, k: IntSettTypes) -> i32 {
    match k {
        IntSettTypes::LongBreak => s.time_long_break,
        IntSettTypes::ShortBreak => s.time_short_break,
        IntSettTypes::Work => s.time_work,
        IntSettTypes::Volume => s.volume,
        IntSettTypes::Rounds => s.work_rounds,
    }
}

/// The settings with one numeric setting set to `v`.
pub open spec fn with_int(s: SettingsView, k: IntSettTypes, v: i32) -> SettingsView {
    match k {
        IntSettTypes::LongBreak => SettingsView { time_long_break: v, ..s },
        IntSettTypes::ShortBreak => SettingsView { time_short_break: v, ..s },
        IntSettTypes::Work => SettingsView { time_work: v, ..s },
        IntSettTypes::Volume => SettingsView { volume: v, ..s },
        IntSettTypes::Rounds => SettingsView { work_rounds: v, ..s },
    }
}

impl Settings {
    /// The window settings that a settings file gives.
    pub fn from_json(settings: &JsonSettings) -> (res: Settings)
        ensures
            res@ == settings_from_json(settings@),
    {
        Settings {
            always_on_top: settings.always_on_top,
            auto_start_break_timer: settings.auto_start_break_timer,
            auto_start_work_timer: settings.auto_start_work_timer,
            break_always_on_top: settings.break_always_on_top,
            min_to_tray: settings.min_to_tray,
            min_to_tray_on_close: settings.min_to_tray_on_close,
            notifications: settings.notifications,
            theme: settings.theme.clone(),
            tick_sounds: settings.tick_sounds,
            tick_sounds_during_break: settings.tick_sounds_during_break,
            time_long_break: settings.time_long_break,
            time_short_break: settings.time_short_break,
            time_work: settings.time_work,
            volume: settings.volume,
            work_rounds: settings.work_rounds,
        }
    }

    /// The settings file to write for these window settings, with the default shortcuts.
    pub fn to_json(&self) -> (res: JsonSettings)
        ensures
            res@ == json_from_settings(self@),
    {
        JsonSettings {
            always_on_top: self.always_on_top,
            auto_start_break_timer: self.auto_start_break_timer,
            auto_start_work_timer: self.auto_start_work_timer,
            break_always_on_top: self.break_always_on_top,
            global_shortcuts: GlobalShortcuts::defaults(),
            min_to_tray: self.min_to_tray,
            min_to_tray_on_close: self.min_to_tray_on_close,
            notifications: self.notifications,
            theme: self.theme.clone(),
            tick_sounds: self.tick_sounds,
            tick_sounds_during_break: self.tick_sounds_during_break,
            time_long_break: self.time_long_break,
            time_short_break: self.time_short_break,
            time_work: self.time_work,
            volume: self.volume,
            work_rounds: self.work_rounds,
        }
    }

    /// Sets one on/off setting.
    pub fn set_bool(&mut self, set_type: BoolSettTypes, val: bool)
        ensures
            final(self)@ == with_bool(old(self)@, set_type, val),
    {
        match set_type {
            BoolSettTypes::AlwOnTop => self.always_on_top = val,
            BoolSettTypes::AutoStrtBreakTim => self.auto_start_break_timer = val,
            BoolSettTypes::AutoStrtWrkTim => self.auto_start_work_timer = val,
            BoolSettTypes::BrkAlwOnTop => self.break_always_on_top = val,
            BoolSettTypes::MinToTray => self.min_to_tray = val,
            BoolSettTypes::MinToTryCls => self.min_to_tray_on_close = val,
            BoolSettTypes::Notifications => self.notifications = val,
            BoolSettTypes::TickSounds => self.tick_sounds = val,
            BoolSettTypes::TickSoundsBreak => self.tick_sounds_during_break = val,
        }
    }

    /// Sets one numeric setting.
    pub fn set_int(&mut self, set_type: IntSettTypes, val: i32)
        ensures
            final(self)@ == with_int(old(self)@, set_type, val),
    {
        match set_type {
            IntSettTypes::LongBreak => self.time_long_break = val,
            IntSettTypes::ShortBreak => self.time_short_break = val,
            IntSettTypes::Work => self.time_work = val,
            IntSettTypes::Volume => self.volume = val,
            IntSettTypes::Rounds => self.work_rounds = val,
        }
    }
}

/// Reading a settings file into the window and writing the window's settings back gives the
/// file that was read, except that the shortcuts become the defaults.
pub proof fn lemma_settings_round_trip(j: JsonSettingsView)
    ensures
        json_from_settings(settings_from_json(j)) == (JsonSettingsView {
            global_shortcuts: default_shortcuts(),
            ..j
        }),
{
}

/// Writing the window's settings to a file and reading that file back gives the same window
/// settings.
pub proof fn lemma_settings_save_load(s: SettingsView)
    ensures
        settings_from_json(json_from_settings(s)) == s,
{
}

/// Setting an on/off setting changes that setting alone, and setting it back to the value it
/// had restores the settings.
pub proof fn lemma_bool_setting_undo(s: SettingsView, k: BoolSettTypes, v: bool)
    ensures
        bool_setting(with_bool(s, k, v), k) == v,
        forall|k2: BoolSettTypes| k2 != k ==> bool_setting(with_bool(s, k, v), k2) == bool_setting(s, k2),
        forall|k2: IntSettTypes| int_setting(with_bool(s, k, v), k2) == int_setting(s, k2),
        with_bool(s, k, v).theme == s.theme,
        with_bool(with_bool(s, k, v), k, bool_setting(s, k)) == s,
{
}

/// Setting a numeric setting changes that setting alone, and setting it back to the value it
/// had restores the settings.
pub proof fn lemma_int_setting_undo(s: SettingsView, k: IntSettTypes, v: i32)
    ensures
        int_setting(with_int(s, k, v), k) == v,
        forall|k2: IntSettTypes| k2 != k ==> int_setting(with_int(s, k, v), k2) == int_setting(s, k2),
        forall|k2: BoolSettTypes| bool_setting(with_int(s, k, v), k2) == bool_setting(s, k2),
        with_int(s, k, v).theme == s.theme,
        with_int(with_int(s, k, v), k, int_setting(s, k)) == s,
{
}

/// Each window setting is the settings-file field of the same name, and each field written to
/// the file is the window setting of the same name; the shortcuts written are the defaults.
pub proof fn lemma_settings_fields(j: JsonSettingsView, s: SettingsView)
    ensures
        settings_from_json(j).always_on_top == j.always_on_top,
        settings_from_json(j).auto_start_break_timer == j.auto_start_break_timer,
        settings_from_json(j).auto_start_work_timer == j.auto_start_work_timer,
        settings_from_json(j).break_always_on_top == j.break_always_on_top,
        settings_from_json(j).min_to_tray == j.min_to_tray,
        settings_from_json(j).min_to_tray_on_close == j.min_to_tray_on_close,
        settings_from_json(j).notifications == j.notifications,
        settings_from_json(j).theme == j.theme,
        settings_from_json(j).tick_sounds == j.tick_sounds,
        settings_from_json(j).tick_sounds_during_break == j.tick_sounds_during_break,
        settings_from_json(j).time_long_break == j.time_long_break,
        settings_from_json(j).time_short_break == j.time_short_break,
        settings_from_json(j).time_work == j.time_work,
        settings_from_json(j).volume == j.volume,
        settings_from_json(j).work_rounds == j.work_rounds,
        json_from_settings(s).always_on_top == s.always_on_top,
        json_from_settings(s).auto_start_break_timer == s.auto_start_break_timer,
        json_from_settings(s).auto_start_work_timer == s.auto_start_work_timer,
        json_from_settings(s).break_always_on_top == s.break_always_on_top,
        json_from_settings(s).min_to_tray == s.min_to_tray,
        json_from_settings(s).min_to_tray_on_close == s.min_to_tray_on_close,
        json_from_settings(s).notifications == s.notifications,
        json_from_settings(s).theme == s.theme,
        json_from_settings(s).tick_sounds == s.tick_sounds,
        json_from_settings(s).tick_sounds_during_break == s.tick_sounds_during_break,
        json_from_settings(s).time_long_break == s.time_long_break,
        json_from_settings(s).time_short_break == s.time_short_break,
        json_from_settings(s).time_work == s.time_work,
        json_from_settings(s).volume == s.volume,
        json_from_settings(s).work_rounds == s.work_rounds,
        json_from_settings(s).global_shortcuts == default_shortcuts(),
{
}

/// Each on/off setting kind names the window setting of the same meaning: reading it reads
/// that field, and setting it sets that field to the value given and leaves every other field
/// as it was.
pub proof fn lemma_bool_kinds(s: SettingsView, v: bool)
    ensures
        bool_setting(s, BoolSettTypes::AlwOnTop) == s.always_on_top,
        with_bool(s, BoolSettTypes::AlwOnTop, v) == (SettingsView { always_on_top: v, ..s }),
        bool_setting(s, BoolSettTypes::AutoStrtBreakTim) == s.auto_start_break_timer,
        with_bool(s, BoolSettTypes::AutoStrtBreakTim, v) == (SettingsView { auto_start_break_timer: v, ..s }),
        bool_setting(s, BoolSettTypes::AutoStrtWrkTim) == s.auto_start_work_timer,
        with_bool(s, BoolSettTypes::AutoStrtWrkTim, v) == (SettingsView { auto_start_work_timer: v, ..s }),
        bool_setting(s, BoolSettTypes::BrkAlwOnTop) == s.break_always_on_top,
        with_bool(s, BoolSettTypes::BrkAlwOnTop, v) == (SettingsView { break_always_on_top: v, ..s }),
        bool_setting(s, BoolSettTypes::MinToTray) == s.min_to_tray,
        with_bool(s, BoolSettTypes::MinToTray, v) == (SettingsView { min_to_tray: v, ..s }),
        bool_setting(s, BoolSettTypes::MinToTryCls) == s.min_to_tray_on_close,
        with_bool(s, BoolSettTypes::MinToTryCls, v) == (SettingsView { min_to_tray_on_close: v, ..s }),
        bool_setting(s, BoolSettTypes::Notifications) == s.notifications,
        with_bool(s, BoolSettTypes::Notifications, v) == (SettingsView { notifications: v, ..s }),
        bool_setting(s, BoolSettTypes::TickSounds) == s.tick_sounds,
        with_bool(s, BoolSettTypes::TickSounds, v) == (SettingsView { tick_sounds: v, ..s }),
        bool_setting(s, BoolSettTypes::TickSoundsBreak) == s.tick_sounds_during_break,
        with_bool(s, BoolSettTypes::TickSoundsBreak, v) == (SettingsView { tick_sounds_during_break: v, ..s }),
{
}

/// Each numeric setting kind names the window setting of the same meaning: reading it reads
/// that field, and setting it sets that field to the value given and leaves every other field
/// as it was.
pub proof fn lemma_int_kinds(s: SettingsView, v: i32)
    ensures
        int_setting(s, IntSettTypes::LongBreak) == s.time_long_break,
        with_int(s, IntSettTypes::LongBreak, v) == (SettingsView { time_long_break: v, ..s }),
        int_setting(s, IntSettTypes::ShortBreak) == s.time_short_break,
        with_int(s, IntSettTypes::ShortBreak, v) == (SettingsView { time_short_break: v, ..s }),
        int_setting(s, IntSettTypes::Work) == s.time_work,
        with_int(s, IntSettTypes::Work, v) == (SettingsView { time_work: v, ..s }),
        int_setting(s, IntSettTypes::Volume) == s.volume,
        with_int(s, IntSettTypes::Volume, v) == (SettingsView { volume: v, ..s }),
        int_setting(s, IntSettTypes::Rounds) == s.work_rounds,
        with_int(s, IntSettTypes::Rounds, v) == (SettingsView { work_rounds: v, ..s }),
{
}

/// The saved shortcuts are Control+F2 to reset, Control+F3 to skip and Control+F1 to toggle.
pub proof fn lemma_default_shortcuts()
    ensures
        default_shortcuts().call_timer_reset == "Control+F2"@,
        default_shortcuts().call_timer_skip == "Control+F3"@,
        default_shortcuts().call_timer_toggle == "Control+F1"@,
{
}

} // verus!
