//! The popup scheduler's state and decisions. The host polls it: it checks
//! the conditions for showing an exercise, picks the word, and either shows
//! the exercise or reports why it is blocked.
//!
//! Scheduler instants (`last_popup_at` and the `now_ms` arguments) are
//! milliseconds of a monotonic clock chosen by the host.
use vstd::prelude::*;
use crate::db::{Word, WordProgress};

verus! {

// ─── Config ──────────────────────────────────────────────────────────────────

#[derive(Clone, Debug)]
pub struct SchedulerConfig {
    pub idle_threshold_secs: u64,
    pub min_popup_gap_secs: u64,
    pub poll_interval_secs: u64,
    pub max_daily_exercises: i32,
    pub work_hours_start: u32,
    pub work_hours_end: u32,
}

impl Default for SchedulerConfig {
    fn default() -> (c: Self)
        ensures
            c.idle_threshold_secs == 5,
            c.min_popup_gap_secs == 30 * 60,
            c.poll_interval_secs == 10,
            c.max_daily_exercises == 50,
            c.work_hours_start == 8,
            c.work_hours_end == 22,
    {
        SchedulerConfig {
            idle_threshold_secs: 5,
            min_popup_gap_secs: 30 * 60,
            poll_interval_secs: 10,
            max_daily_exercises: 50,
            work_hours_start: 8,
            work_hours_end: 22,
        }
    }
}

// ─── State ───────────────────────────────────────────────────────────────────

#[derive(Debug)]
pub struct SchedulerState {
    pub last_popup_at: Option<u64>,
    pub session_id: String,
    pub exercises_today: i32,
    pub is_paused: bool,
    pub current_word: Option<(Word, WordProgress)>,
    pub active_category: Option<String>,
}

impl SchedulerState {
    pub fn new(session_id: String) -> (s: Self)
        ensures
            s.last_popup_at is None,
            s.session_id == session_id,
            s.exercises_today == 0,
            !s.is_paused,
            s.current_word is None,
            s.active_category is None,
    {
        SchedulerState {
            last_popup_at: None,
            session_id,
            exercises_today: 0,
            is_paused: false,
            current_word: None,
            active_category: None,
        }
    }
}

// ─── Conditions ──────────────────────────────────────────────────────────────

#[derive(Clone, Debug)]
pub struct PopupConditions {
    pub user_is_idle: bool,
    pub no_fullscreen: bool,
    pub enough_time_since_last: bool,
    pub within_work_hours: bool,
    pub not_paused: bool,
    pub has_due_exercises: bool,
    pub under_daily_limit: bool,
}

pub open spec fn all_conditions(c: PopupConditions) -> bool {
    c.user_is_idle && c.no_fullscreen && c.enough_time_since_last && c.within_work_hours
        && c.not_paused && c.has_due_exercises && c.under_daily_limit
}

/// The first unmet condition, in the order they are checked.
pub open spec fn first_blocker(c: PopupConditions) -> Option<Seq<char>> {
    if !c.user_is_idle {
        Some("user active"@)
    } else if !c.no_fullscreen {
        Some("fullscreen app"@)
    } else if !c.enough_time_since_last {
        Some("too soon"@)
    } else if !c.within_work_hours {
        Some("outside work hours"@)
    } else if !c.not_paused {
        Some("paused"@)
    } else if !c.has_due_exercises {
        Some("no due exercises"@)
    } else if !c.under_daily_limit {
        Some("daily limit reached"@)
    } else {
        None
    }
}

impl PopupConditions {
    pub fn all_met(&self) -> (b: bool)
        ensures
            b == all_conditions(*self),
    {
        self.user_is_idle && self.no_fullscreen && self.enough_time_since_last
            && self.within_work_hours && self.not_paused && self.has_due_exercises
            && self.under_daily_limit
    }

    pub fn reason_blocked(&self) -> (r: Option<&'static str>)
        ensures
            r is None <==> first_blocker(*self) is None,
            r matches Some(s) ==> first_blocker(*self) == Some(s@),
    {
        if !self.user_is_idle {
            return Some("user active");
        }
        if !self.no_fullscreen {
            return Some("fullscreen app");
        }
        if !self.enough_time_since_last {
            return Some("too soon");
        }
        if !self.within_work_hours {
            return Some("outside work hours");
        }
        if !self.not_paused {
            return Some("paused");
        }
        if !self.has_due_exercises {
            return Some("no due exercises");
        }
        if !self.under_daily_limit {
            return Some("daily limit reached");
        }
        None
    }
}

/// A popup is shown exactly when nothing blocks it.
pub proof fn lemma_blocked_iff_not_all_met(c: PopupConditions)
    ensures
        all_conditions(c) <==> first_blocker(c) is None,
{
}

// ─── Activity Detector ───────────────────────────────────────────────────────

/// A screen rectangle.
#[derive(Clone, Copy, Debug)]
pub struct Rect {
    pub left: i32,
    pub top: i32,
    pub right: i32,
    pub bottom: i32,
}

/// A window covers the whole monitor.
pub open spec fn covers(win: Rect, monitor: Rect) -> bool {
    win.left <= monitor.left && win.top <= monitor.top && win.right >= monitor.right && win.bottom
        >= monitor.bottom
}

/// The latest readings of the platform's activity hooks: seconds since the
/// last user input, and whether the foreground window covers its monitor.
pub struct ActivityDetector {
    pub last_known_idle_secs: u64,
    pub fullscreen_active: bool,
}

impl ActivityDetector {
    pub fn new() -> (d: Self)
        ensures
            d.last_known_idle_secs == 0,
            !d.fullscreen_active,
    {
        ActivityDetector { last_known_idle_secs: 0, fullscreen_active: false }
    }

    /// Seconds since the last user input, as last measured.
    pub fn idle_seconds(&mut self) -> (s: u64)
        ensures
            s == old(self).last_known_idle_secs,
            *final(self) == *old(self),
    {
        self.last_known_idle_secs
    }

    /// Whether a fullscreen application covers the monitor, as last measured.
    pub fn is_fullscreen_active(&self) -> (b: bool)
        ensures
            b == self.fullscreen_active,
    {
        self.fullscreen_active
    }

    /// Records an idle time reported directly in seconds.
    pub fn record_idle_seconds(&mut self, secs: u64)
        ensures
            final(self).last_known_idle_secs == secs,
            final(self).fullscreen_active == old(self).fullscreen_active,
    {
        self.last_known_idle_secs = secs;
    }

    /// Records the foreground window's rectangle and its monitor's: a
    /// fullscreen application is active when both are known and the window
    /// covers the monitor.
    pub fn record_foreground(&mut self, window: Option<Rect>, monitor: Option<Rect>)
        ensures
            final(self).fullscreen_active == (window matches Some(w) && monitor matches Some(m) && covers(w, m)),
            final(self).last_known_idle_secs == old(self).last_known_idle_secs,
    {
        self.fullscreen_active = match (window, monitor) {
            (Some(w), Some(m)) => Self::covers_monitor(w, m),
            _ => false,
        };
    }

    /// Records the idle time measured from system tick counts (milliseconds,
    /// wrapping at 32 bits is not compensated: a last input after the current
    /// tick counts as no idle time) and returns it in whole seconds.
    pub fn record_input_ticks(&mut self, tick_count: u32, last_input_tick: u32) -> (s: u64)
        ensures
            s == (if tick_count >= last_input_tick {
                (tick_count - last_input_tick) / 1000
            } else {
                0
            }),
            final(self).last_known_idle_secs == s,
            final(self).fullscreen_active == old(self).fullscreen_active,
    {
        let idle_ms = if tick_count >= last_input_tick {
            tick_count - last_input_tick
        } else {
            0
        };
        self.last_known_idle_secs = (idle_ms / 1000) as u64;
        self.last_known_idle_secs
    }

    /// Whether the foreground window's rectangle covers the monitor's.
    pub fn covers_monitor(win: Rect, monitor: Rect) -> (b: bool)
        ensures
            b == covers(win, monitor),
    {
        win.left <= monitor.left && win.top <= monitor.top && win.right >= monitor.right
            && win.bottom >= monitor.bottom
    }
}

// ─── Next Exercise Selector ──────────────────────────────────────────────────

/// The word to practise next: the current word when its in-session review
/// is due, else the most overdue word of `due` (which lists due words, most
/// overdue first), else the current word; `None` leaves the choice to the
/// session-word query.
pub open spec fn next_exercise_choice(
    current: Option<(Word, WordProgress)>,
    now: i64,
    due: Seq<(Word, WordProgress)>,
) -> Option<(Word, WordProgress)> {
    if current matches Some(pair) && pair.1.next_session_review_at matches Some(t) && t <= now {
        current
    } else if due.len() > 0 {
        Some(due[0])
    } else {
        current
    }
}

pub fn select_next_exercise(
    current_word: Option<(Word, WordProgress)>,
    now: i64,
    due: Vec<(Word, WordProgress)>,
) -> (r: Option<(Word, WordProgress)>)
    ensures
        r == next_exercise_choice(current_word, now, due@),
{
    let in_session_due = match &current_word {
        Some(pair) => match pair.1.next_session_review_at {
            Some(next_session) => next_session <= now,
            None => false,
        },
        None => false,
    };
    if in_session_due {
        return current_word;
    }
    if due.len() > 0 {
        let mut due = due;
        let first = due.remove(0);
        return Some(first);
    }
    current_word
}

// ─── Scheduler ───────────────────────────────────────────────────────────────

/// What a poll of the scheduler decided.
#[derive(Clone, Debug)]
pub enum PollAction {
    /// Show the exercise for this word in this session.
    ShowExercise { word_id: i64, session_id: String },
    /// Nothing shown; the first unmet condition, if any.
    Blocked { reason: Option<&'static str> },
}

pub struct Scheduler {
    pub config: SchedulerConfig,
    pub state: SchedulerState,
    pub detector: ActivityDetector,
}

/// Enough time has passed since the last popup, measured at `now`.
pub open spec fn gap_elapsed(last: Option<u64>, now: u64, gap_secs: u64) -> bool {
    match last {
        None => true,
        Some(t) => (if now >= t {
            now - t
        } else {
            0
        }) >= gap_secs * 1000,
    }
}

/// The conditions as observed at local hour `hour`, monotonic time `now`,
/// `idle_secs` seconds after the last input and with or without a
/// fullscreen window; the due-exercise flag is set by the poll.
pub open spec fn observed_conditions(
    config: SchedulerConfig,
    state: SchedulerState,
    hour: u32,
    now: u64,
    idle_secs: u64,
    fullscreen: bool,
) -> PopupConditions {
    PopupConditions {
        user_is_idle: idle_secs >= config.idle_threshold_secs,
        no_fullscreen: !fullscreen,
        enough_time_since_last: gap_elapsed(state.last_popup_at, now, config.min_popup_gap_secs),
        within_work_hours: hour >= config.work_hours_start && hour < config.work_hours_end,
        not_paused: !state.is_paused,
        has_due_exercises: true,
        under_daily_limit: state.exercises_today < config.max_daily_exercises,
    }
}

impl Scheduler {
    pub fn new(config: SchedulerConfig, session_id: String) -> (s: Self)
        ensures
            s.config == config,
            s.state.last_popup_at is None,
            s.state.session_id == session_id,
            s.state.exercises_today == 0,
            !s.state.is_paused,
            s.state.current_word is None,
            s.state.active_category is None,
            s.detector.last_known_idle_secs == 0,
            !s.detector.fullscreen_active,
    {
        Scheduler { config, state: SchedulerState::new(session_id), detector: ActivityDetector::new() }
    }

    /// The popup conditions at local hour `hour` and monotonic time `now_ms`.
    pub fn check_conditions_at(&mut self, hour: u32, now_ms: u64) -> (c: PopupConditions)
        ensures
            c == observed_conditions(
                old(self).config,
                old(self).state,
                hour,
                now_ms,
                old(self).detector.last_known_idle_secs,
                old(self).detector.fullscreen_active,
            ),
            final(self).config == old(self).config,
            final(self).state == old(self).state,
            final(self).detector == old(self).detector,
    {
        let idle_secs = self.detector.idle_seconds();
        let fullscreen = self.detector.is_fullscreen_active();
        let enough_time = match self.state.last_popup_at {
            None => true,
            Some(t) => {
                let elapsed = if now_ms >= t {
                    now_ms - t
                } else {
                    0
                };
                elapsed / 1000 >= self.config.min_popup_gap_secs
            },
        };
        PopupConditions {
            user_is_idle: idle_secs >= self.config.idle_threshold_secs,
            no_fullscreen: !fullscreen,
            enough_time_since_last: enough_time,
            within_work_hours: hour >= self.config.work_hours_start && hour < self.config.work_hours_end,
            not_paused: !self.state.is_paused,
            has_due_exercises: true,
            under_daily_limit: self.state.exercises_today < self.config.max_daily_exercises,
        }
    }

    /// The popup conditions now, at the local hour of the system clock.
    pub fn check_conditions(&mut self, now_ms: u64) -> (c: PopupConditions)
        ensures
            exists|hour: u32|
                hour < 24 && c == observed_conditions(
                    old(self).config,
                    old(self).state,
                    hour,
                    now_ms,
                    old(self).detector.last_known_idle_secs,
                    old(self).detector.fullscreen_active,
                ),
            final(self).config == old(self).config,
            final(self).detector == old(self).detector,
            final(self).state == old(self).state,
    {
        let hour = crate::clock::local_hour();
        self.check_conditions_at(hour, now_ms)
    }

    /// A popup was shown at `now_ms`; it counts toward the daily limit.
    pub fn record_popup_shown(&mut self, now_ms: u64)
        requires
            old(self).state.exercises_today < i32::MAX,
        ensures
            final(self).state == (SchedulerState {
                last_popup_at: Some(now_ms),
                exercises_today: (old(self).state.exercises_today + 1) as i32,
                ..old(self).state
            }),
            final(self).config == old(self).config,
            final(self).detector == old(self).detector,
    {
        self.state.last_popup_at = Some(now_ms);
        self.state.exercises_today = self.state.exercises_today + 1;
    }

    /// A popup is about to be shown at `now_ms`: the gap starts now, so the
    /// next poll does not show a second one.
    pub fn record_popup_showing(&mut self, now_ms: u64)
        ensures
            final(self).state == (SchedulerState { last_popup_at: Some(now_ms), ..old(self).state }),
            final(self).config == old(self).config,
            final(self).detector == old(self).detector,
    {
        self.state.last_popup_at = Some(now_ms);
    }

    /// A notification was closed at `now_ms`: the gap restarts from now, and
    /// it counts toward the daily limit only when the user did the exercise.
    pub fn record_popup_dismissed(&mut self, counted: bool, now_ms: u64)
        requires
            counted ==> old(self).state.exercises_today < i32::MAX,
        ensures
            final(self).state == (SchedulerState {
                last_popup_at: Some(now_ms),
                exercises_today: if counted {
                    (old(self).state.exercises_today + 1) as i32
                } else {
                    old(self).state.exercises_today
                },
                ..old(self).state
            }),
            final(self).config == old(self).config,
            final(self).detector == old(self).detector,
    {
        self.state.last_popup_at = Some(now_ms);
        if counted {
            self.state.exercises_today = self.state.exercises_today + 1;
        }
    }

    pub fn set_paused(&mut self, paused: bool)
        ensures
            final(self).state == (SchedulerState { is_paused: paused, ..old(self).state }),
            final(self).config == old(self).config,
            final(self).detector == old(self).detector,
    {
        self.state.is_paused = paused;
    }

    pub fn set_current_word(&mut self, word: Option<(Word, WordProgress)>)
        ensures
            final(self).state == (SchedulerState { current_word: word, ..old(self).state }),
            final(self).config == old(self).config,
            final(self).detector == old(self).detector,
    {
        self.state.current_word = word;
    }

    pub fn session_id(&self) -> (s: String)
        ensures
            s@ == self.state.session_id@,
    {
        crate::text::owned(self.state.session_id.as_str())
    }

    pub fn active_category(&self) -> (c: Option<String>)
        ensures
            c is None <==> self.state.active_category is None,
            c matches Some(s) ==> self.state.active_category matches Some(a) && s@ == a@,
    {
        match &self.state.active_category {
            Some(c) => Some(crate::text::owned(c.as_str())),
            None => None,
        }
    }

    pub fn set_active_category(&mut self, category: Option<String>)
        ensures
            final(self).state == (SchedulerState { active_category: category, ..old(self).state }),
            final(self).config == old(self).config,
            final(self).detector == old(self).detector,
    {
        self.state.active_category = category;
    }

    /// Applies new settings to the running scheduler.
    pub fn update_config(&mut self, config: SchedulerConfig)
        ensures
            final(self).config == config,
            final(self).detector == old(self).detector,
            final(self).state == old(self).state,
    {
        self.config = config;
    }

    /// One poll: `conditions` as checked, `next_word` the word selected for
    /// practice (`None` when there is none). Shows the exercise and records
    /// the popup when every condition holds, otherwise reports the blocker.
    pub fn poll(&mut self, conditions: PopupConditions, next_word: Option<&Word>, now_ms: u64) -> (a: PollAction)
        requires
            old(self).state.exercises_today < i32::MAX,
        ensures
            ({
                let c = PopupConditions { has_due_exercises: next_word is Some, ..conditions };
                if all_conditions(c) {
                    &&& a matches PollAction::ShowExercise { word_id, session_id } && next_word matches Some(w)
                        && word_id == w.id && session_id@ == old(self).state.session_id@
                    &&& final(self).state == (SchedulerState {
                        last_popup_at: Some(now_ms),
                        exercises_today: (old(self).state.exercises_today + 1) as i32,
                        ..old(self).state
                    })
                } else {
                    &&& a matches PollAction::Blocked { reason } && (reason is None <==> first_blocker(c) is None)
                        && (reason matches Some(s) ==> first_blocker(c) == Some(s@))
                    &&& final(self).state == old(self).state
                }
            }),
            final(self).config == old(self).config,
            final(self).detector == old(self).detector,
    {
        let mut conditions = conditions;
        conditions.has_due_exercises = next_word.is_some();
        if conditions.all_met() {
            match next_word {
                Some(w) => {
                    self.record_popup_shown(now_ms);
                    PollAction::ShowExercise { word_id: w.id, session_id: self.session_id() }
                },
                None => PollAction::Blocked { reason: conditions.reason_blocked() },
            }
        } else {
            PollAction::Blocked { reason: conditions.reason_blocked() }
        }
    }
}

/// A popup never shows twice within the minimum gap: right after one is
/// recorded at `t`, the gap condition fails at every instant `now` with
/// `t <= now < t + gap` (for a positive gap).
pub proof fn lemma_gap_blocks_popup(
    config: SchedulerConfig,
    state: SchedulerState,
    t: u64,
    now: u64,
    hour: u32,
    idle: u64,
    fullscreen: bool,
)
    requires
        config.min_popup_gap_secs > 0,
        t <= now,
        now - t < config.min_popup_gap_secs * 1000,
    ensures
        !all_conditions(
            observed_conditions(
                config,
                SchedulerState { last_popup_at: Some(t), ..state },
                hour,
                now,
                idle,
                fullscreen,
            ),
        ),
{
}

/// Once the daily limit is reached, no popup is shown.
pub proof fn lemma_daily_limit_blocks(config: SchedulerConfig, state: SchedulerState, hour: u32, now: u64, idle: u64, fullscreen: bool)
    requires
        state.exercises_today >= config.max_daily_exercises,
    ensures
        !all_conditions(observed_conditions(config, state, hour, now, idle, fullscreen)),
        first_blocker(observed_conditions(config, state, hour, now, idle, fullscreen)) is Some,
{
}

} // verus!
