use vstd::prelude::*;
use crate::text::{decimal_string, int_decimal};

verus! {

/// Which of the three timers runs.
#[derive(Clone, Copy, PartialEq, Eq, Debug, Structural)]
pub enum ActiveTimer {
    Focus,
    ShortBreak,
    LongBreak,
}

/// What the timer is asked to do.
#[derive(Clone, Copy, PartialEq, Eq, Debug, Structural)]
pub enum TimerAction {
    Start,
    Stop,
    Reset,
    Skip,
}

/// The configured round count and durations in milliseconds.
#[derive(Clone, Copy, PartialEq, Eq, Debug, Structural)]
pub struct TmrConfig {
    pub rounds: i32,
    pub lgbrk_time: i32,
    pub shbrk_time: i32,
    pub focus_time: i32,
}

/// The state of the timer: whether it runs, which timer and focus round it is in, and its
/// target and remaining time in milliseconds.
#[derive(Clone, Copy, PartialEq, Eq, Debug, Structural)]
pub struct TimerState {
    pub running: bool,
    pub active_timer: ActiveTimer,
    pub active_round: i32,
    pub target_time: i32,
    pub remaining_time: i32,
}

/// A desktop notification: its summary and its body.
pub struct Notice {
    pub summary: String,
    pub body: String,
}

/// What a [`Notice`] holds.
pub struct NoticeView {
    pub summary: Seq<char>,
    pub body: Seq<char>,
}

impl View for Notice {
    type V = NoticeView;

    open spec fn view(&self) -> NoticeView {
        NoticeView { summary: self.summary@, body: self.body@ }
    }
}

/// Whole minutes in a duration in milliseconds, rounded toward zero as integer division does.
pub open spec fn minutes(ms: i32) -> int {
    if ms >= 0 {
        ms as int / 60000
    } else {
        -((-(ms as int)) / 60000)
    }
}

/// A timer that starts afresh on `timer`, lasting `time` milliseconds.
pub open spec fn begin(t: TimerState, timer: ActiveTimer, round: i32, time: i32) -> TimerState {
    TimerState {
        running: t.running,
        active_timer: timer,
        active_round: round,
        target_time: time,
        remaining_time: time,
    }
}

/// The timer after the current one ends: a focus round is followed by a short break, or by a
/// long break (starting over at round one) when it was the last round; a short break is
/// followed by the next focus round; a long break by focus round one.
pub open spec fn next_timer(t: TimerState, c: TmrConfig) -> TimerState {
    match t.active_timer {
        ActiveTimer::Focus => if t.active_round == c.rounds {
            begin(t, ActiveTimer::LongBreak, 1, c.lgbrk_time)
        } else {
            begin(t, ActiveTimer::ShortBreak, t.active_round, c.shbrk_time)
        },
        ActiveTimer::ShortBreak => begin(t, ActiveTimer::Focus, (t.active_round + 1) as i32, c.focus_time),
        ActiveTimer::LongBreak => begin(t, ActiveTimer::Focus, 1, c.focus_time),
    }
}

/// The notification shown when the current timer ends.
pub open spec fn change_notice(t: TimerState, c: TmrConfig) -> NoticeView {
    match t.active_timer {
        ActiveTimer::Focus => NoticeView {
            summary: "Focus Round Complete"@,
            body: if t.active_round == c.rounds {
                "Begin a "@ + int_decimal(minutes(c.lgbrk_time)) + " minute long break."@
            } else {
                "Begin a "@ + int_decimal(minutes(c.shbrk_time)) + " minute short break."@
            },
        },
        _ => NoticeView {
            summary: "Break Finished"@,
            body: "Begin focusing for "@ + int_decimal(minutes(c.focus_time)) + " minutes."@,
        },
    }
}

/// Whether the timer may end: a short break ends by moving to the next focus round, whose
/// number must fit.
pub open spec fn can_change(t: TimerState) -> bool {
    t.active_timer == ActiveTimer::ShortBreak ==> t.active_round < i32::MAX
}

/// The timer after an action: start and stop set it running or not, reset stops it and
/// fills the remaining time up to the target, skip ends the current timer.
pub open spec fn apply_action(t: TimerState, c: TmrConfig, a: TimerAction) -> TimerState {
    match a {
        TimerAction::Start => TimerState { running: true, ..t },
        TimerAction::Stop => TimerState { running: false, ..t },
        TimerAction::Reset => TimerState { running: false, remaining_time: t.target_time, ..t },
        TimerAction::Skip => next_timer(t, c),
    }
}

/// What the window is to do after an action.
pub enum TimerEffect {
    /// Start the repeating tick.
    StartTicking,
    /// Stop the repeating tick.
    StopTicking,
    /// Stop the repeating tick and draw the progress circle full.
    StopAndRedrawFull,
    /// Show this notification: the timer has moved on.
    Notify(Notice),
}

/// Whole minutes in a duration in milliseconds, rounded toward zero.
pub fn minutes_of(ms: i32) -> (m: i64)
    ensures
        m == minutes(ms),
{
    let t: i64 = ms as i64;
    if t >= 0 {
        t / 60000
    } else {
        -((-t) / 60000)
    }
}

/// `prefix`, the decimal minutes in `ms`, then `suffix`.
fn minutes_text(prefix: &str, ms: i32, suffix: &str) -> (res: String)
    ensures
        res@ == prefix@ + int_decimal(minutes(ms)) + suffix@,
{
    let mut s = String::from_str(prefix);
    let m = decimal_string(minutes_of(ms));
    s.append(m.as_str());
    s.append(suffix);
    s
}

/// The notification shown when the current timer ends.
pub fn change_notice_of(t: &TimerState, c: &TmrConfig) -> (n: Notice)
    ensures
        n@ == change_notice(*t, *c),
{
    match t.active_timer {
        ActiveTimer::Focus => {
            let body = if t.active_round == c.rounds {
                minutes_text("Begin a ", c.lgbrk_time, " minute long break.")
            } else {
                minutes_text("Begin a ", c.shbrk_time, " minute short break.")
            };
            Notice { summary: String::from_str("Focus Round Complete"), body }
        },
        _ => Notice {
            summary: String::from_str("Break Finished"),
            body: minutes_text("Begin focusing for ", c.focus_time, " minutes."),
        },
    }
}

/// The timer after the current one ends.
pub fn next_timer_of(t: &TimerState, c: &TmrConfig) -> (res: TimerState)
    requires
        can_change(*t),
    ensures
        res == next_timer(*t, *c),
{
    match t.active_timer {
        ActiveTimer::Focus => {
            if t.active_round == c.rounds {
                TimerState {
                    running: t.running,
                    active_timer: ActiveTimer::LongBreak,
                    active_round: 1,
                    target_time: c.lgbrk_time,
                    remaining_time: c.lgbrk_time,
                }
            } else {
                TimerState {
                    running: t.running,
                    active_timer: ActiveTimer::ShortBreak,
                    active_round: t.active_round,
                    target_time: c.shbrk_time,
                    remaining_time: c.shbrk_time,
                }
            }
        },
        ActiveTimer::ShortBreak => TimerState {
            running: t.running,
            active_timer: ActiveTimer::Focus,
            active_round: t.active_round + 1,
            target_time: c.focus_time,
            remaining_time: c.focus_time,
        },
        ActiveTimer::LongBreak => TimerState {
            running: t.running,
            active_timer: ActiveTimer::Focus,
            active_round: 1,
            target_time: c.focus_time,
            remaining_time: c.focus_time,
        },
    }
}

/// The timer after `k` timers have ended one after another.
pub open spec fn run_timers(t: TimerState, c: TmrConfig, k: nat) -> TimerState
    decreases k,
{
    if k == 0 {
        t
    } else {
        run_timers(next_timer(t, c), c, (k - 1) as nat)
    }
}

/// Focus round `r` at its start.
pub open spec fn focus_round(running: bool, r: i32, c: TmrConfig) -> TimerState {
    TimerState {
        running,
        active_timer: ActiveTimer::Focus,
        active_round: r,
        target_time: c.focus_time,
        remaining_time: c.focus_time,
    }
}

proof fn lemma_run_split(t: TimerState, c: TmrConfig, a: nat, b: nat)
    ensures
        run_timers(t, c, a + b) == run_timers(run_timers(t, c, a), c, b),
    decreases a,
{
    if a > 0 {
        lemma_run_split(next_timer(t, c), c, (a - 1) as nat, b);
        assert((a + b - 1) as nat == ((a - 1) as nat + b) as nat);
    }
}

proof fn lemma_two_steps(running: bool, r: i32, c: TmrConfig)
    requires
        1 <= r <= c.rounds,
    ensures
        r < c.rounds ==> run_timers(focus_round(running, r, c), c, 2) == focus_round(running, (r + 1) as i32, c),
        r == c.rounds ==> run_timers(focus_round(running, r, c), c, 2) == focus_round(running, 1, c),
{
    reveal_with_fuel(run_timers, 3);
}

proof fn lemma_rounds_to_last(running: bool, r: i32, c: TmrConfig)
    requires
        1 <= r <= c.rounds,
    ensures
        run_timers(focus_round(running, r, c), c, (2 * (c.rounds - r)) as nat) == focus_round(running, c.rounds, c),
    decreases c.rounds - r,
{
    if r < c.rounds {
        lemma_two_steps(running, r, c);
        lemma_rounds_to_last(running, (r + 1) as i32, c);
        lemma_run_split(focus_round(running, r, c), c, 2, (2 * (c.rounds - r - 1)) as nat);
        assert((2 + 2 * (c.rounds - r - 1)) as nat == (2 * (c.rounds - r)) as nat);
    } else {
        assert(run_timers(focus_round(running, r, c), c, 0) == focus_round(running, r, c));
    }
}

/// A full pomodoro cycle: from the start of focus round one, after `2 * rounds` timers have
/// ended (each focus round followed by its break) the timer is at the start of focus round one
/// again.
pub proof fn lemma_full_cycle(running: bool, c: TmrConfig)
    requires
        c.rounds >= 1,
    ensures
        run_timers(focus_round(running, 1, c), c, (2 * c.rounds) as nat) == focus_round(running, 1, c),
{
    lemma_rounds_to_last(running, 1, c);
    lemma_two_steps(running, c.rounds, c);
    lemma_run_split(focus_round(running, 1, c), c, (2 * (c.rounds - 1)) as nat, 2);
    assert(((2 * (c.rounds - 1)) as nat + 2) as nat == (2 * c.rounds) as nat);
}

/// Within a cycle the break after focus round `r` is a long one exactly when `r` is the last
/// round; every timer that ends starts the next one with its full configured time.
pub proof fn lemma_break_kind(t: TimerState, c: TmrConfig)
    requires
        t.active_timer == ActiveTimer::Focus,
    ensures
        (next_timer(t, c).active_timer == ActiveTimer::LongBreak) == (t.active_round == c.rounds),
        (next_timer(t, c).active_timer == ActiveTimer::ShortBreak) == (t.active_round != c.rounds),
        next_timer(t, c).target_time == next_timer(t, c).remaining_time,
        next_timer(next_timer(t, c), c).active_timer == ActiveTimer::Focus,
{
}

/// Starting then stopping the timer leaves it as it was, stopped; a reset stops it with the
/// whole target time remaining; none of the three changes which timer or round it is in.
pub proof fn lemma_start_stop_reset(t: TimerState, c: TmrConfig)
    ensures
        apply_action(apply_action(t, c, TimerAction::Start), c, TimerAction::Stop) == (TimerState { running: false, ..t }),
        !apply_action(t, c, TimerAction::Reset).running,
        apply_action(t, c, TimerAction::Reset).remaining_time == t.target_time,
        apply_action(t, c, TimerAction::Reset).target_time == t.target_time,
        apply_action(t, c, TimerAction::Start).active_timer == t.active_timer,
        apply_action(t, c, TimerAction::Reset).active_round == t.active_round,
{
}


/// Whether `body` holds `d` somewhere.
pub open spec fn mentions(body: Seq<char>, d: Seq<char>) -> bool {
    exists|p: Seq<char>, q: Seq<char>| body == p + d + q
}

/// The notification shown when a timer ends announces, in whole minutes, the length of the
/// timer that begins, and it names a completed focus round exactly when a break begins.
pub proof fn lemma_notice_announces_next(t: TimerState, c: TmrConfig)
    ensures
        mentions(change_notice(t, c).body, int_decimal(minutes(next_timer(t, c).target_time))),
        (change_notice(t, c).summary == "Focus Round Complete"@) == (next_timer(t, c).active_timer != ActiveTimer::Focus),
{
    let n = next_timer(t, c);
    let d = int_decimal(minutes(n.target_time));
    reveal_strlit("Focus Round Complete");
    reveal_strlit("Break Finished");
    assert("Focus Round Complete"@[0] != "Break Finished"@[0]);
    match t.active_timer {
        ActiveTimer::Focus => {
            if t.active_round == c.rounds {
                assert(change_notice(t, c).body == "Begin a "@ + d + " minute long break."@);
            } else {
                assert(change_notice(t, c).body == "Begin a "@ + d + " minute short break."@);
            }
        },
        _ => {
            assert(change_notice(t, c).body == "Begin focusing for "@ + d + " minutes."@);
        },
    }
}

/// What comes after each timer, whatever time is left in it: a short break is followed by the
/// next focus round; the last focus round by a long break and round one; any other focus round
/// by a short break in the same round; a long break by focus round one. The timer that begins
/// has its full configured time, and ending a timer does not start or stop it.
pub proof fn lemma_next_timer_cases(t: TimerState, c: TmrConfig)
    requires
        can_change(t),
    ensures
        next_timer(t, c).running == t.running,
        next_timer(t, c).remaining_time == next_timer(t, c).target_time,
        t.active_timer == ActiveTimer::ShortBreak ==> {
            &&& next_timer(t, c).active_timer == ActiveTimer::Focus
            &&& next_timer(t, c).active_round == t.active_round + 1
            &&& next_timer(t, c).target_time == c.focus_time
        },
        t.active_timer == ActiveTimer::LongBreak ==> {
            &&& next_timer(t, c).active_timer == ActiveTimer::Focus
            &&& next_timer(t, c).active_round == 1
            &&& next_timer(t, c).target_time == c.focus_time
        },
        (t.active_timer == ActiveTimer::Focus && t.active_round == c.rounds) ==> {
            &&& next_timer(t, c).active_timer == ActiveTimer::LongBreak
            &&& next_timer(t, c).active_round == 1
            &&& next_timer(t, c).target_time == c.lgbrk_time
        },
        (t.active_timer == ActiveTimer::Focus && t.active_round != c.rounds) ==> {
            &&& next_timer(t, c).active_timer == ActiveTimer::ShortBreak
            &&& next_timer(t, c).active_round == t.active_round
            &&& next_timer(t, c).target_time == c.shbrk_time
        },
{
}

/// Each action changes only what it is for: start and stop change only whether the timer runs;
/// reset stops it and fills its remaining time up to its target, keeping which timer and which
/// round it is; skip ends the current timer.
pub proof fn lemma_action_effects(t: TimerState, c: TmrConfig)
    ensures
        apply_action(t, c, TimerAction::Start).running,
        apply_action(t, c, TimerAction::Start).active_timer == t.active_timer,
        apply_action(t, c, TimerAction::Start).active_round == t.active_round,
        apply_action(t, c, TimerAction::Start).target_time == t.target_time,
        apply_action(t, c, TimerAction::Start).remaining_time == t.remaining_time,
        !apply_action(t, c, TimerAction::Stop).running,
        apply_action(t, c, TimerAction::Stop).active_timer == t.active_timer,
        apply_action(t, c, TimerAction::Stop).active_round == t.active_round,
        apply_action(t, c, TimerAction::Stop).target_time == t.target_time,
        apply_action(t, c, TimerAction::Stop).remaining_time == t.remaining_time,
        !apply_action(t, c, TimerAction::Reset).running,
        apply_action(t, c, TimerAction::Reset).active_timer == t.active_timer,
        apply_action(t, c, TimerAction::Reset).active_round == t.active_round,
        apply_action(t, c, TimerAction::Reset).target_time == t.target_time,
        apply_action(t, c, TimerAction::Reset).remaining_time == t.target_time,
        apply_action(t, c, TimerAction::Skip) == next_timer(t, c),
{
}

/// Whole minutes are the milliseconds divided by 60000 with the remainder dropped toward zero:
/// for a non-negative duration the minutes times 60000 are at most the duration and less than a
/// minute short of it, and a negative duration has the negated minutes of its magnitude.
pub proof fn lemma_minutes(ms: i32)
    ensures
        ms >= 0 ==> 0 <= ms - 60000 * minutes(ms) < 60000,
        ms >= 0 ==> minutes(ms) >= 0,
        ms < 0 && ms > i32::MIN ==> minutes(ms) == -minutes((-ms) as i32),
{
}

} // verus!
