//! SM-2 (SuperMemo 2) scheduling with the trainer's extensions.
//!
//! - Quality q in 0..=5 (0-2 failed, 3-5 passed).
//! - EF' = EF + 0.1 - (5-q)(0.08 + (5-q) * 0.02), kept within [1.3, 3.5].
//! - A failed recall resets the run of successes and comes back after a day.
//! - Passed: the 1st success gives 1 day, the 2nd 6 days, later ones
//!   round(previous interval * EF') days.
//! - The word's difficulty scales the interval (x1.2, x1.0, x0.85, x0.70,
//!   x0.55), never below one day.
//! - Within a session the word comes back after 15 min, 1 h, 3 h, then 6 h.
//!
//! The easiness factor is held in hundredths and intervals in hundredths of
//! a day, in which units every step above is exact integer arithmetic.
use vstd::prelude::*;
use crate::db::{MasteryLevel, WordProgress};
use crate::clock::now_millis;

verus! {

pub const MINUTE_MS: i64 = 60_000;
pub const HOUR_MS: i64 = 3_600_000;

/// The largest interval magnitude (in hundredths of a day) the schedule accepts.
pub const MAX_INTERVAL_CENTIDAYS: i64 = 1_000_000_000_000_000;

/// Outcome of one SM-2 step.
#[derive(Clone, Debug)]
pub struct Sm2Result {
    pub easiness_hundredths: i64,
    pub interval_centidays: i64,
    pub repetitions: i32,
    pub iterations: i32,
    pub mastery_level: MasteryLevel,
}

// ─── Specification ───────────────────────────────────────────────────────────

/// 100 * (0.1 - (5-q)(0.08 + (5-q) * 0.02)).
pub open spec fn easiness_delta(q: int) -> int {
    10 - (5 - q) * (8 + (5 - q) * 2)
}

/// `x` kept within [1.3, 3.5].
pub open spec fn clamp_easiness(x: int) -> int {
    if x < 130 {
        130
    } else if x > 350 {
        350
    } else {
        x
    }
}

pub open spec fn next_easiness(old: int, q: int) -> int {
    clamp_easiness(old + easiness_delta(q))
}

/// `n / d` rounded to the nearest integer, halves away from zero.
pub open spec fn round_div(n: int, d: int) -> int {
    if n >= 0 {
        (n + d / 2) / d
    } else {
        -((-n + d / 2) / d)
    }
}

/// The iteration count after an answer of quality `q`.
pub open spec fn next_iterations(old: int, q: int) -> int {
    if q < 3 {
        0
    } else {
        old + 1
    }
}

/// The interval in whole days before the difficulty scaling.
pub open spec fn raw_interval_days(old_iterations: int, old_interval: int, new_ef: int, q: int) -> int {
    if q < 3 {
        1
    } else if old_iterations + 1 == 1 {
        1
    } else if old_iterations + 1 == 2 {
        6
    } else {
        round_div(old_interval * new_ef, 10000)
    }
}

/// The difficulty scaling in percent.
pub open spec fn difficulty_percent(difficulty: int) -> int {
    if difficulty == 1 {
        120
    } else if difficulty == 2 {
        100
    } else if difficulty == 3 {
        85
    } else if difficulty == 4 {
        70
    } else if difficulty == 5 {
        55
    } else {
        100
    }
}

/// The scaled interval in hundredths of a day, at least one day.
pub open spec fn adjusted_interval(raw_days: int, difficulty: int) -> int {
    let scaled = raw_days * difficulty_percent(difficulty);
    if scaled < 100 {
        100
    } else {
        scaled
    }
}

/// The mastery level after a step.
pub open spec fn mastery_for(iterations: int, interval: int, q: int) -> MasteryLevel {
    if q < 3 {
        MasteryLevel::Learning
    } else if iterations == 0 {
        MasteryLevel::New
    } else if 1 <= iterations <= 3 {
        MasteryLevel::Learning
    } else if 4 <= iterations <= 7 && interval < 2100 {
        MasteryLevel::Reviewing
    } else if iterations >= 8 || interval >= 2100 {
        MasteryLevel::Mastered
    } else {
        MasteryLevel::Reviewing
    }
}

/// The inputs of a step stay inside the integer representation.
pub open spec fn step_in_range(p: WordProgress) -> bool {
    &&& p.repetitions < i32::MAX
    &&& p.iterations < i32::MAX
    &&& -MAX_INTERVAL_CENTIDAYS <= p.interval_centidays <= MAX_INTERVAL_CENTIDAYS
}

/// The complete SM-2 step.
pub open spec fn sm2_step(p: WordProgress, q: int, difficulty: int) -> Sm2Result {
    let ef = next_easiness(p.easiness_hundredths as int, q);
    let it = next_iterations(p.iterations as int, q);
    let interval = adjusted_interval(
        raw_interval_days(p.iterations as int, p.interval_centidays as int, ef, q),
        difficulty,
    );
    Sm2Result {
        easiness_hundredths: ef as i64,
        interval_centidays: interval as i64,
        repetitions: (p.repetitions + 1) as i32,
        iterations: it as i32,
        mastery_level: mastery_for(it, interval, q),
    }
}

/// The session micro-schedule after `count` reviews in this session.
/// (15 minutes after 0 or 1 reviews, 1 hour after 2, 3 hours after 3, and
/// 6 hours for any other count, negative ones included).
pub open spec fn session_delay(count: int) -> int {
    if count == 0 || count == 1 {
        15 * MINUTE_MS
    } else if count == 2 {
        HOUR_MS as int
    } else if count == 3 {
        3 * HOUR_MS
    } else {
        6 * HOUR_MS
    }
}

/// The quality score of an answer.
pub open spec fn quality_of(was_correct: bool, response_ms: int, exercise_difficulty: int) -> int {
    if !was_correct {
        if response_ms < 3000 {
            1
        } else {
            0
        }
    } else {
        let ideal: int = if exercise_difficulty == 1 {
            2000
        } else if exercise_difficulty == 2 {
            3000
        } else if exercise_difficulty == 3 {
            4000
        } else if exercise_difficulty == 4 {
            5500
        } else {
            7000
        };
        if response_ms < ideal / 2 {
            5
        } else if response_ms < ideal {
            4
        } else {
            3
        }
    }
}

/// When the word is due after the step, counted from `now`.
pub open spec fn next_review_time(now: int, interval: int, q: int) -> int {
    if q >= 4 && interval < 50 {
        now + 12 * HOUR_MS
    } else {
        let secs = interval * 864;
        now + (if secs < 30 {
            30
        } else {
            secs
        }) * 1000
    }
}

/// The arithmetic of applying a step at `now` stays inside `i64`/`i32`.
pub open spec fn apply_in_range(p: WordProgress, r: Sm2Result, now: int) -> bool {
    &&& p.total_reviews < i32::MAX
    &&& p.correct_reviews < i32::MAX
    &&& p.streak < i32::MAX
    &&& p.session_reviews < i32::MAX
    &&& now + 12 * HOUR_MS <= i64::MAX
    &&& i64::MIN <= now
    &&& now + r.interval_centidays * 864 * 1000 + 30_000 <= i64::MAX
    &&& r.interval_centidays * 864 * 1000 + 30_000 <= i64::MAX
}

/// The progress after applying step `r` of quality `q` at `now`.
pub open spec fn applied(p: WordProgress, r: Sm2Result, q: int, now: int) -> WordProgress {
    let session_reviews = p.session_reviews + 1;
    WordProgress {
        easiness_hundredths: r.easiness_hundredths,
        interval_centidays: r.interval_centidays,
        repetitions: r.repetitions,
        iterations: r.iterations,
        mastery_level: r.mastery_level,
        last_review_at: Some(now as i64),
        total_reviews: (p.total_reviews + 1) as i32,
        correct_reviews: if q >= 3 {
            (p.correct_reviews + 1) as i32
        } else {
            p.correct_reviews
        },
        streak: if q >= 3 {
            (p.streak + 1) as i32
        } else {
            0
        },
        next_review_at: next_review_time(now, r.interval_centidays as int, q) as i64,
        introduced_at: if p.introduced_at is None {
            Some(now as i64)
        } else {
            p.introduced_at
        },
        session_reviews: session_reviews as i32,
        next_session_review_at: Some((now + session_delay(session_reviews)) as i64),
        ..p
    }
}

// ─── Implementation ──────────────────────────────────────────────────────────

proof fn lemma_product_bounded(a: int, b: int)
    requires
        -MAX_INTERVAL_CENTIDAYS <= a <= MAX_INTERVAL_CENTIDAYS,
        130 <= b <= 350,
    ensures
        -350 * MAX_INTERVAL_CENTIDAYS <= a * b <= 350 * MAX_INTERVAL_CENTIDAYS,
{
    assert(-350 * MAX_INTERVAL_CENTIDAYS <= a * b <= 350 * MAX_INTERVAL_CENTIDAYS) by (nonlinear_arith)
        requires
            -MAX_INTERVAL_CENTIDAYS <= a <= MAX_INTERVAL_CENTIDAYS,
            130 <= b <= 350,
    ;
}

/// Within range, the raw interval stays far inside `i64`.
proof fn lemma_step_bounded(p: WordProgress, q: int, difficulty: int)
    requires
        step_in_range(p),
        0 <= q <= 5,
    ensures
        -100_000_000_000_000 <= raw_interval_days(
            p.iterations as int,
            p.interval_centidays as int,
            next_easiness(p.easiness_hundredths as int, q),
            q,
        ) <= 100_000_000_000_000,
        100 <= adjusted_interval(
            raw_interval_days(
                p.iterations as int,
                p.interval_centidays as int,
                next_easiness(p.easiness_hundredths as int, q),
                q,
            ),
            difficulty,
        ) <= 12_000_000_000_000_000,
{
    let ef = next_easiness(p.easiness_hundredths as int, q);
    lemma_product_bounded(p.interval_centidays as int, ef);
    let raw = raw_interval_days(p.iterations as int, p.interval_centidays as int, ef, q);
    let f = difficulty_percent(difficulty);
    assert(raw * f <= 12_000_000_000_000_000) by (nonlinear_arith)
        requires
            -100_000_000_000_000 <= raw <= 100_000_000_000_000,
            0 <= f <= 120,
    ;
}

fn easiness_after(old: i64, quality: i32) -> (ef: i64)
    requires
        0 <= quality <= 5,
    ensures
        ef == next_easiness(old as int, quality as int),
{
    let delta: i128 = match quality {
        0 => -80,
        1 => -54,
        2 => -32,
        3 => -14,
        4 => 0,
        _ => 10,
    };
    assert(delta == easiness_delta(quality as int)) by {
        assert(easiness_delta(0) == -80);
        assert(easiness_delta(1) == -54);
        assert(easiness_delta(2) == -32);
        assert(easiness_delta(3) == -14);
        assert(easiness_delta(4) == 0);
        assert(easiness_delta(5) == 10);
    }
    let x = old as i128 + delta;
    if x < 130 {
        130
    } else if x > 350 {
        350
    } else {
        x as i64
    }
}

fn difficulty_factor(difficulty: i32) -> (f: i64)
    ensures
        f == difficulty_percent(difficulty as int),
{
    match difficulty {
        1 => 120,
        2 => 100,
        3 => 85,
        4 => 70,
        5 => 55,
        _ => 100,
    }
}

fn determine_mastery(iterations: i32, interval: i64, quality: i32) -> (m: MasteryLevel)
    ensures
        m == mastery_for(iterations as int, interval as int, quality as int),
{
    if quality < 3 {
        return MasteryLevel::Learning;
    }
    if iterations == 0 {
        MasteryLevel::New
    } else if 1 <= iterations && iterations <= 3 {
        MasteryLevel::Learning
    } else if 4 <= iterations && iterations <= 7 && interval < 2100 {
        MasteryLevel::Reviewing
    } else if iterations >= 8 || interval >= 2100 {
        MasteryLevel::Mastered
    } else {
        MasteryLevel::Reviewing
    }
}

/// One SM-2 step for an answer of quality `quality` on a word of the given
/// difficulty.
pub fn calculate_next(progress: &WordProgress, quality: i32, difficulty: i32) -> (r: Sm2Result)
    requires
        0 <= quality <= 5,
        step_in_range(*progress),
    ensures
        r == sm2_step(*progress, quality as int, difficulty as int),
{
    let new_ef = easiness_after(progress.easiness_hundredths, quality);
    let (new_iterations, raw_days): (i32, i64) = if quality < 3 {
        (0, 1)
    } else {
        let next_iterations = progress.iterations + 1;
        let days: i64 = if next_iterations == 1 {
            1
        } else if next_iterations == 2 {
            6
        } else {
            let a = progress.interval_centidays as i128;
            let b = new_ef as i128;
            proof {
                lemma_product_bounded(a as int, b as int);
            }
            let n = a * b;
            let rounded = if n >= 0 {
                (n + 5000) / 10000
            } else {
                -((-n + 5000) / 10000)
            };
            rounded as i64
        };
        (next_iterations, days)
    };
    let factor = difficulty_factor(difficulty);
    assert(-100_000_000_000_000 <= raw_days <= 100_000_000_000_000);
    let scaled = raw_days * factor;
    let adjusted = if scaled < 100 {
        100
    } else {
        scaled
    };
    let mastery_level = determine_mastery(new_iterations, adjusted, quality);
    Sm2Result {
        easiness_hundredths: new_ef,
        interval_centidays: adjusted,
        repetitions: progress.repetitions + 1,
        iterations: new_iterations,
        mastery_level,
    }
}

/// Converts answer correctness and response latency into an SM-2 quality:
/// wrong answers score 1 when quick and 0 otherwise; right answers score 5,
/// 4 or 3 against an ideal time that grows with the exercise difficulty.
pub fn score_from_response(was_correct: bool, response_ms: i64, exercise_difficulty: i32) -> (q: i32)
    ensures
        q == quality_of(was_correct, response_ms as int, exercise_difficulty as int),
        0 <= q <= 5,
        was_correct ==> 3 <= q,
        !was_correct ==> q <= 1,
{
    if !was_correct {
        return if response_ms < 3000 {
            1
        } else {
            0
        };
    }
    let ideal_ms: i64 = match exercise_difficulty {
        1 => 2000,
        2 => 3000,
        3 => 4000,
        4 => 5500,
        _ => 7000,
    };
    if response_ms < ideal_ms / 2 {
        5
    } else if response_ms < ideal_ms {
        4
    } else if response_ms < ideal_ms * 2 {
        3
    } else {
        3
    }
}

/// The in-session delay after `session_review_count` reviews.
pub fn session_delay_ms(session_review_count: i32) -> (d: i64)
    ensures
        d == session_delay(session_review_count as int),
{
    if session_review_count == 0 || session_review_count == 1 {
        15 * MINUTE_MS
    } else if session_review_count == 2 {
        HOUR_MS
    } else if session_review_count == 3 {
        3 * HOUR_MS
    } else {
        6 * HOUR_MS
    }
}

/// The next in-session review instant, counted from `now`.
pub fn compute_session_interval_at(session_review_count: i32, now: i64) -> (t: i64)
    requires
        now + 6 * HOUR_MS <= i64::MAX,
    ensures
        t == now + session_delay(session_review_count as int),
{
    now + session_delay_ms(session_review_count)
}

/// The next in-session review instant, counted from the current time.
pub fn compute_session_interval(session_review_count: i32) -> (t: i64)
    ensures
        exists|now: i64|
            crate::clock::plausible_instant(now as int) && t == now + session_delay(
                session_review_count as int,
            ),
{
    let now = now_millis();
    compute_session_interval_at(session_review_count, now)
}

/// Records the step `result` for an answer of quality `quality` given at `now`.
pub fn apply_result_at(progress: &mut WordProgress, result: Sm2Result, quality: i32, now: i64)
    requires
        apply_in_range(*old(progress), result, now as int),
    ensures
        *final(progress) == applied(*old(progress), result, quality as int, now as int),
{
    progress.easiness_hundredths = result.easiness_hundredths;
    progress.interval_centidays = result.interval_centidays;
    progress.repetitions = result.repetitions;
    progress.iterations = result.iterations;
    progress.mastery_level = result.mastery_level;
    progress.last_review_at = Some(now);
    progress.total_reviews = progress.total_reviews + 1;
    if quality >= 3 {
        progress.correct_reviews = progress.correct_reviews + 1;
        progress.streak = progress.streak + 1;
    } else {
        progress.streak = 0;
    }
    // An interval below one hundredth of a day is under 30 seconds.
    let secs = if result.interval_centidays < 1 {
        30
    } else {
        result.interval_centidays * 864
    };
    let mut next_date = now + secs * 1000;
    if quality >= 4 && result.interval_centidays < 50 {
        next_date = now + 12 * HOUR_MS;
    }
    progress.next_review_at = next_date;
    if progress.introduced_at.is_none() {
        progress.introduced_at = Some(now);
    }
    progress.session_reviews = progress.session_reviews + 1;
    progress.next_session_review_at = Some(compute_session_interval_at(progress.session_reviews, now));
}

/// Records the step `result` at the current time.
pub fn apply_result(progress: &mut WordProgress, result: Sm2Result, quality: i32)
    requires
        forall|now: i64| #![auto] crate::clock::plausible_instant(now as int) ==> apply_in_range(*old(progress), result, now as int),
    ensures
        exists|now: i64|
            crate::clock::plausible_instant(now as int) && *final(progress) == applied(
                *old(progress),
                result,
                quality as int,
                now as int,
            ),
{
    let now = now_millis();
    apply_result_at(progress, result, quality, now);
}

// ─── Laws ────────────────────────────────────────────────────────────────────

/// The easiness factor never leaves [1.3, 3.5] after a step.
pub proof fn lemma_easiness_bounded(p: WordProgress, q: int, difficulty: int)
    ensures
        130 <= sm2_step(p, q, difficulty).easiness_hundredths <= 350,
{
}

/// A failed recall (quality below 3) resets the run of successes and brings
/// the word back after one day scaled by its difficulty (one day for
/// difficulty 2).
pub proof fn lemma_failure_resets(p: WordProgress, q: int, difficulty: int)
    requires
        0 <= q < 3,
    ensures
        sm2_step(p, q, difficulty).iterations == 0,
        sm2_step(p, q, difficulty).interval_centidays == if difficulty == 1 {
            120int
        } else {
            100int
        },
        sm2_step(p, q, difficulty).mastery_level == MasteryLevel::Learning,
{
}

/// The first success schedules the next review one day later (scaled by
/// difficulty, at least a day), the second six days later.
pub proof fn lemma_first_and_second_success(p: WordProgress, q: int, difficulty: int)
    requires
        3 <= q <= 5,
        step_in_range(p),
    ensures
        p.iterations == 0 ==> sm2_step(p, q, difficulty).interval_centidays == adjusted_interval(1, difficulty),
        p.iterations == 1 ==> sm2_step(p, q, difficulty).interval_centidays == adjusted_interval(6, difficulty),
        sm2_step(p, q, difficulty).iterations == p.iterations + 1,
{
}

/// Every scheduled interval is at least one day.
pub proof fn lemma_interval_at_least_one_day(p: WordProgress, q: int, difficulty: int)
    requires
        0 <= q <= 5,
        step_in_range(p),
    ensures
        sm2_step(p, q, difficulty).interval_centidays >= 100,
{
    lemma_step_bounded(p, q, difficulty);
}

/// A harder word (difficulty 1..=5) never gets a longer interval than an
/// easier one for the same progress and answer.
pub proof fn lemma_harder_word_shorter_interval(p: WordProgress, q: int, easy: int, hard: int)
    requires
        1 <= easy <= hard <= 5,
        0 <= q <= 5,
        step_in_range(p),
    ensures
        sm2_step(p, q, hard).interval_centidays <= sm2_step(p, q, easy).interval_centidays,
{
    lemma_step_bounded(p, q, easy);
    lemma_step_bounded(p, q, hard);
    let raw = raw_interval_days(
        p.iterations as int,
        p.interval_centidays as int,
        next_easiness(p.easiness_hundredths as int, q),
        q,
    );
    let fe = difficulty_percent(easy);
    let fh = difficulty_percent(hard);
    assert(fh <= fe);
    if raw >= 0 {
        assert(raw * fh <= raw * fe) by (nonlinear_arith)
            requires
                raw >= 0,
                fh <= fe,
        ;
    } else {
        assert(raw * fh < 100) by (nonlinear_arith)
            requires
                raw < 0,
                fh > 0,
        ;
        assert(raw * fe < 100) by (nonlinear_arith)
            requires
                raw < 0,
                fe > 0,
        ;
    }
}

/// A better answer never lowers the resulting easiness factor.
pub proof fn lemma_easiness_monotone_in_quality(p: WordProgress, q1: int, q2: int, difficulty: int)
    requires
        0 <= q1 <= q2 <= 5,
    ensures
        sm2_step(p, q1, difficulty).easiness_hundredths <= sm2_step(p, q2, difficulty).easiness_hundredths,
{
    assert(easiness_delta(q1) <= easiness_delta(q2)) by (nonlinear_arith)
        requires
            0 <= q1 <= q2 <= 5,
    ;
}

/// Every step counts one more repetition.
pub proof fn lemma_repetitions_count_steps(p: WordProgress, q: int, difficulty: int)
    requires
        step_in_range(p),
        0 <= q <= 5,
    ensures
        sm2_step(p, q, difficulty).repetitions == p.repetitions + 1,
{
}

/// The in-session delays grow with the review count: 15 min, 1 h, 3 h,
/// then 6 h; every delay lies between 15 minutes and 6 hours.
pub proof fn lemma_session_delays_grow(a: int, b: int)
    requires
        0 <= a <= b,
    ensures
        session_delay(a) <= session_delay(b),
        15 * MINUTE_MS <= session_delay(a) <= 6 * HOUR_MS,
{
}

/// After a recorded answer the word is due no sooner than 30 seconds later;
/// a good answer (quality 4 or 5) on an interval under half a day waits 12 hours.
pub proof fn lemma_next_review_not_immediate(p: WordProgress, r: Sm2Result, q: int, now: int)
    requires
        apply_in_range(p, r, now),
    ensures
        applied(p, r, q, now).next_review_at >= now + 30_000,
        (q >= 4 && r.interval_centidays < 50) ==> applied(p, r, q, now).next_review_at == now + 12 * HOUR_MS,
{
}

/// A failed answer breaks the streak; a passed one extends it and counts as correct.
pub proof fn lemma_streak_and_counts(p: WordProgress, r: Sm2Result, q: int, now: int)
    requires
        apply_in_range(p, r, now),
    ensures
        applied(p, r, q, now).total_reviews == p.total_reviews + 1,
        q < 3 ==> applied(p, r, q, now).streak == 0 && applied(p, r, q, now).correct_reviews
            == p.correct_reviews,
        q >= 3 ==> applied(p, r, q, now).streak == p.streak + 1 && applied(p, r, q, now).correct_reviews
            == p.correct_reviews + 1,
{
}


/// The mastery level a step reports follows from the run of successes and the
/// difficulty-scaled interval it reports: a failed answer is Learning; after
/// a pass, 1 to 3 successes are Learning, 4 to 7 successes with an interval
/// under 21 days are Reviewing, and 8 or more successes or an interval of
/// 21 days or more are Mastered.
pub proof fn lemma_mastery_follows_result(p: WordProgress, q: int, difficulty: int)
    requires
        0 <= q <= 5,
        step_in_range(p),
    ensures
        ({
            let r = sm2_step(p, q, difficulty);
            &&& q < 3 ==> r.mastery_level == MasteryLevel::Learning
            &&& (q >= 3 && 1 <= r.iterations <= 3) ==> r.mastery_level == MasteryLevel::Learning
            &&& (q >= 3 && 4 <= r.iterations <= 7 && r.interval_centidays < 2100) ==> r.mastery_level
                == MasteryLevel::Reviewing
            &&& (q >= 3 && r.iterations >= 4 && (r.iterations >= 8 || r.interval_centidays >= 2100))
                ==> r.mastery_level == MasteryLevel::Mastered
        }),
{
    lemma_step_bounded(p, q, difficulty);
}

/// Outside the 12-hour cooldown for a good answer on a short interval, the
/// word is due exactly one recorded interval (in hundredths of a day of
/// 864 seconds) after the answer, whatever the quality.
pub proof fn lemma_due_one_interval_later(p: WordProgress, r: Sm2Result, q: int, now: int)
    requires
        apply_in_range(p, r, now),
    ensures
        (!(q >= 4 && r.interval_centidays < 50) && r.interval_centidays >= 1) ==> applied(p, r, q, now).next_review_at
            == now + r.interval_centidays * 864 * 1000,
{
}

/// A failed answer brings the word back one day later (1.2 days for a
/// difficulty-1 word), not at once.
pub proof fn lemma_failed_word_returns_after_a_day(p: WordProgress, q: int, difficulty: int, now: int)
    requires
        0 <= q < 3,
        step_in_range(p),
        apply_in_range(p, sm2_step(p, q, difficulty), now),
    ensures
        applied(p, sm2_step(p, q, difficulty), q, now).next_review_at == now + (if difficulty == 1 {
            103_680_000int
        } else {
            86_400_000int
        }),
{
}

/// How a correct answer is scored: with the ideal time of 2, 3, 4 and 5.5
/// seconds for exercise difficulties 1 to 4 and 7 seconds otherwise, it
/// scores 5 under half the ideal time, 4 under the ideal time and 3 from then
/// on. A wrong answer scores 1 under 3 seconds and 0 from then on.
pub proof fn lemma_score_thresholds(response_ms: int, d: int)
    ensures
        ({
            let ideal = if d == 1 {
                2000int
            } else if d == 2 {
                3000int
            } else if d == 3 {
                4000int
            } else if d == 4 {
                5500int
            } else {
                7000int
            };
            &&& response_ms * 2 < ideal ==> quality_of(true, response_ms, d) == 5
            &&& (ideal <= response_ms * 2 && response_ms < ideal) ==> quality_of(true, response_ms, d) == 4
            &&& ideal <= response_ms ==> quality_of(true, response_ms, d) == 3
            &&& response_ms < 3000 ==> quality_of(false, response_ms, d) == 1
            &&& response_ms >= 3000 ==> quality_of(false, response_ms, d) == 0
        }),
{
}

/// A faster answer never scores lower than a slower one, and a correct
/// answer always scores above a wrong one.
pub proof fn lemma_faster_scores_no_lower(correct: bool, fast_ms: int, slow_ms: int, d: int)
    requires
        fast_ms <= slow_ms,
    ensures
        quality_of(correct, fast_ms, d) >= quality_of(correct, slow_ms, d),
        quality_of(true, fast_ms, d) > quality_of(false, slow_ms, d),
        quality_of(true, slow_ms, d) > quality_of(false, fast_ms, d),
{
}


/// The easiness factor moves by -0.80, -0.54, -0.32, -0.14, 0 and +0.10 for
/// qualities 0 to 5, and is then kept within [1.3, 3.5].
pub proof fn lemma_easiness_change_by_quality(p: WordProgress, q: int, difficulty: int)
    requires
        0 <= q <= 5,
    ensures
        ({
            let moved = p.easiness_hundredths + (if q == 0 {
                -80int
            } else if q == 1 {
                -54int
            } else if q == 2 {
                -32int
            } else if q == 3 {
                -14int
            } else if q == 4 {
                0int
            } else {
                10int
            });
            sm2_step(p, q, difficulty).easiness_hundredths == (if moved < 130 {
                130
            } else if moved > 350 {
                350
            } else {
                moved
            })
        }),
{
    assert(easiness_delta(0) == -80);
    assert(easiness_delta(1) == -54);
    assert(easiness_delta(2) == -32);
    assert(easiness_delta(3) == -14);
    assert(easiness_delta(4) == 0);
    assert(easiness_delta(5) == 10);
}

/// From the third success in a row on, the interval is the previous one
/// times the new easiness factor, rounded to whole days, then scaled by
/// x1.2, x1.0, x0.85, x0.70 or x0.55 for difficulties 1 to 5, and never
/// below one day.
pub proof fn lemma_interval_after_later_success(p: WordProgress, q: int, difficulty: int)
    requires
        3 <= q <= 5,
        2 <= p.iterations,
        0 <= p.interval_centidays,
        1 <= difficulty <= 5,
        step_in_range(p),
    ensures
        ({
            let r = sm2_step(p, q, difficulty);
            let days = (p.interval_centidays * r.easiness_hundredths + 5000) / 10000;
            let percent = if difficulty == 1 {
                120int
            } else if difficulty == 2 {
                100int
            } else if difficulty == 3 {
                85int
            } else if difficulty == 4 {
                70int
            } else {
                55int
            };
            &&& r.iterations == p.iterations + 1
            &&& r.interval_centidays == (if days * percent < 100 {
                100
            } else {
                days * percent
            })
        }),
{
    lemma_step_bounded(p, q, difficulty);
}

} // verus!
