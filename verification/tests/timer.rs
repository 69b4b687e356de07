use tomotroid::timer::{
    change_notice_of, minutes_of, next_timer_of, ActiveTimer, TimerAction, TimerEffect,
    TimerState, TmrConfig,
};

fn config() -> TmrConfig {
    TmrConfig { rounds: 4, lgbrk_time: 900000, shbrk_time: 300000, focus_time: 1500000 }
}

fn focus(round: i32) -> TimerState {
    TimerState {
        running: true,
        active_timer: ActiveTimer::Focus,
        active_round: round,
        target_time: 1500000,
        remaining_time: 1500000,
    }
}

#[test]
fn minutes_round_toward_zero() {
    assert_eq!(minutes_of(900000), 15);
    assert_eq!(minutes_of(59999), 0);
    assert_eq!(minutes_of(60000), 1);
    assert_eq!(minutes_of(-60000), -1);
    assert_eq!(minutes_of(-119999), -1);
    assert_eq!(minutes_of(i32::MIN), (i32::MIN / 60000) as i64);
}

#[test]
fn last_focus_round_leads_to_long_break() {
    let c = config();
    let t = focus(4);
    let n = change_notice_of(&t, &c);
    assert_eq!(n.summary, "Focus Round Complete");
    assert_eq!(n.body, "Begin a 15 minute long break.");
    let next = next_timer_of(&t, &c);
    assert_eq!(next.active_timer, ActiveTimer::LongBreak);
    assert_eq!(next.active_round, 1);
    assert_eq!(next.target_time, 900000);
    assert_eq!(next.remaining_time, 900000);
    assert!(next.running);
}

#[test]
fn other_focus_rounds_lead_to_short_break() {
    let c = config();
    let t = focus(2);
    let n = change_notice_of(&t, &c);
    assert_eq!(n.summary, "Focus Round Complete");
    assert_eq!(n.body, "Begin a 5 minute short break.");
    let next = next_timer_of(&t, &c);
    assert_eq!(next.active_timer, ActiveTimer::ShortBreak);
    assert_eq!(next.active_round, 2);
    assert_eq!(next.remaining_time, 300000);
}

#[test]
fn breaks_lead_to_focus() {
    let c = config();
    let short = TimerState { active_timer: ActiveTimer::ShortBreak, active_round: 2, ..focus(2) };
    let n = change_notice_of(&short, &c);
    assert_eq!(n.summary, "Break Finished");
    assert_eq!(n.body, "Begin focusing for 25 minutes.");
    let next = next_timer_of(&short, &c);
    assert_eq!(next, TimerState { active_round: 3, ..focus(3) });

    let long = TimerState { active_timer: ActiveTimer::LongBreak, active_round: 1, ..focus(1) };
    let n = change_notice_of(&long, &c);
    assert_eq!(n.summary, "Break Finished");
    assert_eq!(n.body, "Begin focusing for 25 minutes.");
    assert_eq!(next_timer_of(&long, &c), focus(1));
}

#[test]
fn full_cycle_returns_to_round_one() {
    let c = config();
    let mut t = focus(1);
    let mut long_breaks = 0;
    for _ in 0..(2 * c.rounds) {
        t = next_timer_of(&t, &c);
        if t.active_timer == ActiveTimer::LongBreak {
            long_breaks += 1;
        }
    }
    assert_eq!(t, focus(1));
    assert_eq!(long_breaks, 1);
}

#[test]
fn notice_for_negative_and_short_durations() {
    let c = TmrConfig { rounds: 1, lgbrk_time: 59999, shbrk_time: -120000, focus_time: 0 };
    let t = TimerState { active_round: 2, ..focus(2) };
    assert_eq!(change_notice_of(&t, &c).body, "Begin a -2 minute short break.");
    let t = focus(1);
    assert_eq!(change_notice_of(&t, &c).body, "Begin a 0 minute long break.");
    let t = TimerState { active_timer: ActiveTimer::LongBreak, ..focus(1) };
    assert_eq!(change_notice_of(&t, &c).body, "Begin focusing for 0 minutes.");
}

#[test]
fn actions_are_distinct() {
    assert_ne!(TimerAction::Start, TimerAction::Stop);
    let e = TimerEffect::StartTicking;
    assert!(matches!(e, TimerEffect::StartTicking));
}
