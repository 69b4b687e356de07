use tomotroid::color::Rgb;
use tomotroid::settings::{BoolSettTypes, GlobalShortcuts, IntSettTypes, JsonSettings, Settings};
use tomotroid::theme::{find_theme, JsonTheme, Theme};
use tomotroid::timer::{ActiveTimer, TimerAction, TimerEffect, TimerState, TmrConfig};
use tomotroid::window::{HotKeyIds, Main};

fn rgb(v: u8) -> Rgb {
    Rgb { red: v, green: v, blue: v }
}

fn json() -> JsonSettings {
    JsonSettings {
        always_on_top: true,
        auto_start_break_timer: false,
        auto_start_work_timer: true,
        break_always_on_top: false,
        global_shortcuts: GlobalShortcuts {
            call_timer_reset: String::from("Alt+R"),
            call_timer_skip: String::from("Alt+S"),
            call_timer_toggle: String::from("Alt+T"),
        },
        min_to_tray: true,
        min_to_tray_on_close: false,
        notifications: true,
        theme: String::from("Pomotroid"),
        tick_sounds: false,
        tick_sounds_during_break: true,
        time_long_break: 15,
        time_short_break: 5,
        time_work: 25,
        volume: 100,
        work_rounds: 4,
    }
}

fn theme_named(name: &str, v: u8) -> JsonTheme {
    JsonTheme {
        name: String::from(name),
        long_round: rgb(v),
        short_round: rgb(v + 1),
        focus_round: rgb(v + 2),
        background: rgb(v + 3),
        background_light: rgb(v + 4),
        background_lightest: rgb(v + 5),
        foreground: rgb(v + 6),
        foreground_darker: rgb(v + 7),
        foreground_darkest: rgb(v + 8),
        accent: rgb(v + 9),
    }
}

fn main_window() -> Main {
    let mut settings_src = json();
    settings_src.theme = String::from("Other");
    Main {
        settings: Settings::from_json(&settings_src),
        theme: Theme::from_json(0, &theme_named("Other", 0)),
        timer: TimerState {
            running: false,
            active_timer: ActiveTimer::Focus,
            active_round: 1,
            target_time: 1500000,
            remaining_time: 1000,
        },
        tmr_config: TmrConfig { rounds: 4, lgbrk_time: 900000, shbrk_time: 300000, focus_time: 1500000 },
    }
}

fn same_json(a: &JsonSettings, b: &JsonSettings) -> bool {
    a.always_on_top == b.always_on_top
        && a.auto_start_break_timer == b.auto_start_break_timer
        && a.auto_start_work_timer == b.auto_start_work_timer
        && a.break_always_on_top == b.break_always_on_top
        && a.global_shortcuts.call_timer_reset == b.global_shortcuts.call_timer_reset
        && a.global_shortcuts.call_timer_skip == b.global_shortcuts.call_timer_skip
        && a.global_shortcuts.call_timer_toggle == b.global_shortcuts.call_timer_toggle
        && a.min_to_tray == b.min_to_tray
        && a.min_to_tray_on_close == b.min_to_tray_on_close
        && a.notifications == b.notifications
        && a.theme == b.theme
        && a.tick_sounds == b.tick_sounds
        && a.tick_sounds_during_break == b.tick_sounds_during_break
        && a.time_long_break == b.time_long_break
        && a.time_short_break == b.time_short_break
        && a.time_work == b.time_work
        && a.volume == b.volume
        && a.work_rounds == b.work_rounds
}

#[test]
fn default_shortcuts() {
    let d = GlobalShortcuts::defaults();
    assert_eq!(d.call_timer_reset, "Control+F2");
    assert_eq!(d.call_timer_skip, "Control+F3");
    assert_eq!(d.call_timer_toggle, "Control+F1");
}

#[test]
fn set_then_save_gives_back_the_settings_with_default_shortcuts() {
    let mut m = main_window();
    let s = json();
    m.set_settings(&s);
    let saved = m.save_settings();
    let mut expected = json();
    expected.global_shortcuts = GlobalShortcuts::defaults();
    assert!(same_json(&saved, &expected));
    assert_eq!(m.timer.remaining_time, 1000);
}

#[test]
fn save_then_set_keeps_the_window_settings() {
    let mut m = main_window();
    let before = m.save_settings();
    let saved = m.save_settings();
    m.set_settings(&saved);
    assert!(same_json(&m.save_settings(), &before));
    assert_eq!(m.settings.theme, "Other");
}

#[test]
fn bool_setting_toggles_to_the_opposite_of_the_reported_value() {
    let mut m = main_window();
    assert!(m.settings.always_on_top);
    m.bool_changed(BoolSettTypes::AlwOnTop, true);
    assert!(!m.settings.always_on_top);
    m.bool_changed(BoolSettTypes::AlwOnTop, false);
    assert!(m.settings.always_on_top);
    m.bool_changed(BoolSettTypes::TickSoundsBreak, true);
    assert!(!m.settings.tick_sounds_during_break);
    assert!(m.settings.notifications);
    m.bool_changed(BoolSettTypes::Notifications, true);
    assert!(!m.settings.notifications);
    m.bool_changed(BoolSettTypes::MinToTryCls, false);
    assert!(m.settings.min_to_tray_on_close);
    assert!(m.settings.min_to_tray);
}

#[test]
fn int_setting_is_set() {
    let mut m = main_window();
    m.int_changed(IntSettTypes::Work, 50);
    assert_eq!(m.settings.time_work, 50);
    m.int_changed(IntSettTypes::Volume, 3);
    assert_eq!(m.settings.volume, 3);
    m.int_changed(IntSettTypes::Rounds, 6);
    assert_eq!(m.settings.work_rounds, 6);
    assert_eq!(m.settings.time_short_break, 5);
    m.int_changed(IntSettTypes::ShortBreak, 7);
    m.int_changed(IntSettTypes::LongBreak, 20);
    assert_eq!(m.settings.time_short_break, 7);
    assert_eq!(m.settings.time_long_break, 20);
    assert_eq!(m.settings.time_work, 50);
}

#[test]
fn theme_change_is_saved_and_found_again() {
    let themes = vec![theme_named("Pomotroid", 10), theme_named("Dracula", 40), theme_named("Nord", 70)];
    let mut m = main_window();
    m.theme_changed(1, &themes[1]);
    assert_eq!(m.settings.theme, "Dracula");
    assert_eq!(m.theme.theme_idx, 1);
    assert_eq!(m.theme.accent, rgb(49));
    assert_eq!(m.theme.focus_round, rgb(42));
    let saved = m.save_settings();
    assert_eq!(find_theme(&themes, &saved.theme), Some(1));
}

#[test]
fn find_theme_picks_the_first_match() {
    let themes = vec![theme_named("A", 0), theme_named("B", 10), theme_named("B", 20)];
    assert_eq!(find_theme(&themes, &String::from("B")), Some(1));
    assert_eq!(find_theme(&themes, &String::from("A")), Some(0));
    assert_eq!(find_theme(&themes, &String::from("C")), None);
    assert_eq!(find_theme(&Vec::new(), &String::from("A")), None);
}

#[test]
fn round_colour_follows_the_active_timer() {
    let mut m = main_window();
    m.theme = Theme::from_json(0, &theme_named("X", 100));
    assert_eq!(m.round_color(), rgb(102));
    m.timer.active_timer = ActiveTimer::ShortBreak;
    assert_eq!(m.round_color(), rgb(101));
    m.timer.active_timer = ActiveTimer::LongBreak;
    assert_eq!(m.round_color(), rgb(100));
}

#[test]
fn timer_actions() {
    let mut m = main_window();
    assert!(matches!(m.action_timer(TimerAction::Start), TimerEffect::StartTicking));
    assert!(m.timer.running);
    assert!(matches!(m.action_timer(TimerAction::Stop), TimerEffect::StopTicking));
    assert!(!m.timer.running);
    assert_eq!(m.timer.remaining_time, 1000);
    m.action_timer(TimerAction::Start);
    assert!(matches!(m.action_timer(TimerAction::Reset), TimerEffect::StopAndRedrawFull));
    assert!(!m.timer.running);
    assert_eq!(m.timer.remaining_time, 1500000);
    match m.action_timer(TimerAction::Skip) {
        TimerEffect::Notify(n) => {
            assert_eq!(n.summary, "Focus Round Complete");
            assert_eq!(n.body, "Begin a 5 minute short break.");
        }
        _ => panic!("skip must notify"),
    }
    assert_eq!(m.timer.active_timer, ActiveTimer::ShortBreak);
    assert_eq!(m.timer.target_time, 300000);
    assert_eq!(m.timer.remaining_time, 300000);
}

#[test]
fn change_timer_through_a_cycle() {
    let mut m = main_window();
    m.tmr_config.rounds = 2;
    let bodies: Vec<String> = (0..4).map(|_| m.change_timer().body).collect();
    assert_eq!(
        bodies,
        vec![
            "Begin a 5 minute short break.",
            "Begin focusing for 25 minutes.",
            "Begin a 15 minute long break.",
            "Begin focusing for 25 minutes.",
        ]
    );
    assert_eq!(m.timer.active_timer, ActiveTimer::Focus);
    assert_eq!(m.timer.active_round, 1);
    assert_eq!(m.timer.remaining_time, 1500000);
}

#[test]
fn hotkeys() {
    let ids = HotKeyIds { toggle: 10, reset: 20, skip: 30 };
    assert_eq!(ids.action_for(true, 10, true), Some(TimerAction::Stop));
    assert_eq!(ids.action_for(true, 10, false), Some(TimerAction::Start));
    assert_eq!(ids.action_for(true, 20, true), Some(TimerAction::Reset));
    assert_eq!(ids.action_for(true, 30, false), Some(TimerAction::Skip));
    assert_eq!(ids.action_for(true, 40, false), None);
    assert_eq!(ids.action_for(false, 10, false), None);
    let same = HotKeyIds { toggle: 5, reset: 5, skip: 5 };
    assert_eq!(same.action_for(true, 5, false), Some(TimerAction::Start));
}

#[test]
fn toggle_hotkey_flips_running() {
    let ids = HotKeyIds { toggle: 1, reset: 2, skip: 3 };
    let mut m = main_window();
    for _ in 0..3 {
        let before = m.timer.running;
        let a = ids.action_for(true, 1, m.timer.running).unwrap();
        m.action_timer(a);
        assert_eq!(m.timer.running, !before);
    }
}
