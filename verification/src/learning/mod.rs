//! The learning engine's decisions: recording an answer, opening a session,
//! adjusting a word's difficulty, and shaping statistics.
pub mod exercise_generator;
pub mod scheduler;
pub mod sm2;

use vstd::prelude::*;
use crate::db::{DailyStats, ExerciseHistory, ExerciseType, MasteryLevel, Word, WordProgress, mastery_name};
use sm2::{
    apply_in_range, apply_result_at, applied, calculate_next, compute_session_interval_at, quality_of,
    score_from_response, session_delay, sm2_step, step_in_range, HOUR_MS, MAX_INTERVAL_CENTIDAYS,
};

verus! {

/// What the user interface is told after an answer.
#[derive(Clone, Debug)]
pub struct AnswerResult {
    pub quality: i32,
    pub was_correct: bool,
    /// New interval in hundredths of a day.
    pub new_interval_centidays: i64,
    /// New easiness factor in hundredths.
    pub new_easiness_hundredths: i64,
    pub mastery_level: String,
    /// Unix milliseconds.
    pub next_review_at: i64,
    pub streak: i32,
    pub word: Word,
}

/// Everything an answer changes: the progress to store, the history row to
/// append and the result to report.
#[derive(Clone, Debug)]
pub struct AnswerOutcome {
    pub progress: WordProgress,
    pub history: ExerciseHistory,
    pub result: AnswerResult,
}

/// Recording an answer of quality `q` on `word` at `now` stays inside the
/// integer representation.
pub open spec fn graded_in_range(word: Word, progress: WordProgress, q: int, now: i64) -> bool {
    &&& step_in_range(progress)
    &&& apply_in_range(progress, sm2_step(progress, q, word.difficulty as int), now as int)
}

/// The answer's arithmetic stays inside the integer representation.
pub open spec fn answer_in_range(
    word: Word,
    progress: WordProgress,
    was_correct: bool,
    response_time_ms: i64,
    now: i64,
) -> bool {
    graded_in_range(word, progress, quality_of(was_correct, response_time_ms as int, word.difficulty as int), now)
}

/// Whether an answer of quality `quality` can be recorded without leaving
/// the integer range.
pub fn graded_answer_fits(word: &Word, progress: &WordProgress, quality: i32, now: i64) -> (b: bool)
    requires
        0 <= quality <= 5,
    ensures
        b == graded_in_range(*word, *progress, quality as int, now),
{
    if !(progress.repetitions < i32::MAX && progress.iterations < i32::MAX
        && -MAX_INTERVAL_CENTIDAYS <= progress.interval_centidays
        && progress.interval_centidays <= MAX_INTERVAL_CENTIDAYS) {
        return false;
    }
    let r = calculate_next(progress, quality, word.difficulty);
    let now_w = now as i128;
    let iv = r.interval_centidays as i128;
    progress.total_reviews < i32::MAX && progress.correct_reviews < i32::MAX && progress.streak
        < i32::MAX && progress.session_reviews < i32::MAX && now_w + 12 * (HOUR_MS
        as i128) <= i64::MAX as i128 && now_w + iv * 864 * 1000 + 30_000 <= i64::MAX as i128
        && iv * 864 * 1000 + 30_000 <= i64::MAX as i128
}

/// Whether an answer can be recorded without leaving the integer range.
pub fn answer_fits(word: &Word, progress: &WordProgress, was_correct: bool, response_time_ms: i64, now: i64) -> (b: bool)
    ensures
        b == answer_in_range(*word, *progress, was_correct, response_time_ms, now),
{
    let quality = score_from_response(was_correct, response_time_ms, word.difficulty);
    graded_answer_fits(word, progress, quality, now)
}

/// The outcome of recording an answer of quality `q` on `word` at `now`.
pub open spec fn graded_outcome(
    word: Word,
    progress: WordProgress,
    q: int,
    was_correct: bool,
    response_time_ms: i64,
    user_answer: Option<String>,
    exercise_type: ExerciseType,
    session_id: Seq<char>,
    now: i64,
    out: AnswerOutcome,
) -> bool {
    let p = applied(progress, sm2_step(progress, q, word.difficulty as int), q, now as int);
    &&& out.progress == p
    &&& out.history.id == 0
    &&& out.history.word_id == word.id
    &&& out.history.exercise_type == exercise_type
    &&& out.history.response_time_ms == response_time_ms
    &&& out.history.quality == q
    &&& out.history.was_correct == was_correct
    &&& out.history.user_answer == user_answer
    &&& out.history.session_id@ == session_id
    &&& out.history.completed_at == now
    &&& out.result.quality == q
    &&& out.result.was_correct == was_correct
    &&& out.result.new_interval_centidays == p.interval_centidays
    &&& out.result.new_easiness_hundredths == p.easiness_hundredths
    &&& out.result.mastery_level@ == mastery_name(p.mastery_level)
    &&& out.result.next_review_at == p.next_review_at
    &&& out.result.streak == p.streak
    &&& out.result.word == word
}

/// The outcome of answering an exercise on `word` at `now`: the quality is
/// scored from correctness and response time.
pub open spec fn answer_outcome(
    word: Word,
    progress: WordProgress,
    was_correct: bool,
    response_time_ms: i64,
    user_answer: Option<String>,
    exercise_type: ExerciseType,
    session_id: Seq<char>,
    now: i64,
    out: AnswerOutcome,
) -> bool {
    graded_outcome(
        word,
        progress,
        quality_of(was_correct, response_time_ms as int, word.difficulty as int),
        was_correct,
        response_time_ms,
        user_answer,
        exercise_type,
        session_id,
        now,
        out,
    )
}

/// Runs the SM-2 step of quality `quality` on the word's progress and builds
/// the history row and the reported result, all stamped `now`.
pub fn process_graded_answer_at(
    word: Word,
    progress: WordProgress,
    quality: i32,
    was_correct: bool,
    response_time_ms: i64,
    user_answer: Option<String>,
    exercise_type: ExerciseType,
    session_id: &str,
    now: i64,
) -> (out: AnswerOutcome)
    requires
        0 <= quality <= 5,
        graded_in_range(word, progress, quality as int, now),
    ensures
        graded_outcome(word, progress, quality as int, was_correct, response_time_ms, user_answer, exercise_type, session_id@, now, out),
{
    let mut progress = progress;
    let sm2_result = calculate_next(&progress, quality, word.difficulty);
    apply_result_at(&mut progress, sm2_result, quality, now);
    let history = ExerciseHistory {
        id: 0,
        word_id: word.id,
        exercise_type,
        response_time_ms,
        quality,
        was_correct,
        user_answer,
        session_id: crate::text::owned(session_id),
        completed_at: now,
    };
    let result = AnswerResult {
        quality,
        was_correct,
        new_interval_centidays: progress.interval_centidays,
        new_easiness_hundredths: progress.easiness_hundredths,
        mastery_level: crate::text::owned(progress.mastery_level.as_str()),
        next_review_at: progress.next_review_at,
        streak: progress.streak,
        word,
    };
    AnswerOutcome { progress, history, result }
}

/// Scores an answer from correctness and response time, runs the SM-2 step
/// on the word's progress, and builds the history row and the reported
/// result, all stamped `now`.
pub fn process_answer_at(
    word: Word,
    progress: WordProgress,
    was_correct: bool,
    response_time_ms: i64,
    user_answer: Option<String>,
    exercise_type: ExerciseType,
    session_id: &str,
    now: i64,
) -> (out: AnswerOutcome)
    requires
        answer_in_range(word, progress, was_correct, response_time_ms, now),
    ensures
        answer_outcome(word, progress, was_correct, response_time_ms, user_answer, exercise_type, session_id@, now, out),
{
    let quality = score_from_response(was_correct, response_time_ms, word.difficulty);
    process_graded_answer_at(word, progress, quality, was_correct, response_time_ms, user_answer, exercise_type, session_id, now)
}

/// The progress of the word that opens a session at `now`: introduced now,
/// no session reviews yet, back in 15 minutes.
pub fn begin_session(progress: WordProgress, now: i64) -> (p: WordProgress)
    requires
        now + 6 * HOUR_MS <= i64::MAX,
    ensures
        p == (WordProgress {
            introduced_at: Some(now),
            session_reviews: 0,
            next_session_review_at: Some((now + session_delay(0)) as i64),
            ..progress
        }),
{
    let mut progress = progress;
    progress.introduced_at = Some(now);
    progress.session_reviews = 0;
    progress.next_session_review_at = Some(compute_session_interval_at(0, now));
    progress
}

// ─── Difficulty Adjuster ─────────────────────────────────────────────────────

/// The difficulty suggested by a word's accuracy, once it has at least five
/// reviews: above 90% correct lowers it, below 50% raises it, within 1..=5.
pub open spec fn adjusted_difficulty(current: int, correct: int, total: int) -> Option<int> {
    if total < 5 {
        None
    } else if 10 * correct > 9 * total && current > 1 {
        Some(current - 1)
    } else if 2 * correct < total && current < 5 {
        Some(current + 1)
    } else {
        None
    }
}

pub open spec fn difficulty_label(d: int) -> Seq<char> {
    if d == 1 {
        "Beginner"@
    } else if d == 2 {
        "Elementary"@
    } else if d == 3 {
        "Intermediate"@
    } else if d == 4 {
        "Advanced"@
    } else if d == 5 {
        "Expert"@
    } else {
        "Unknown"@
    }
}

pub struct DifficultyAdjuster;

impl DifficultyAdjuster {
    /// A new difficulty for the word, or `None` to keep it.
    pub fn adjust(word: &Word, progress: &WordProgress) -> (r: Option<i32>)
        ensures
            r matches Some(d) ==> adjusted_difficulty(
                word.difficulty as int,
                progress.correct_reviews as int,
                progress.total_reviews as int,
            ) == Some(d as int),
            r is None <==> adjusted_difficulty(
                word.difficulty as int,
                progress.correct_reviews as int,
                progress.total_reviews as int,
            ) is None,
    {
        if progress.total_reviews < 5 {
            return None;
        }
        let correct = progress.correct_reviews as i64;
        let total = progress.total_reviews as i64;
        let current = word.difficulty;
        if 10 * correct > 9 * total && current > 1 {
            Some(current - 1)
        } else if 2 * correct < total && current < 5 {
            Some(current + 1)
        } else {
            None
        }
    }

    pub fn label(difficulty: i32) -> (s: &'static str)
        ensures
            s@ == difficulty_label(difficulty as int),
    {
        match difficulty {
            1 => "Beginner",
            2 => "Elementary",
            3 => "Intermediate",
            4 => "Advanced",
            5 => "Expert",
            _ => "Unknown",
        }
    }
}

/// A word's accuracy only ever moves its difficulty by one step, and keeps it
/// within 1..=5 when it started there.
pub proof fn lemma_adjust_one_step(current: int, correct: int, total: int)
    requires
        1 <= current <= 5,
    ensures
        adjusted_difficulty(current, correct, total) matches Some(d) ==> (d == current - 1 || d
            == current + 1) && 1 <= d <= 5,
{
}

// ─── Progress Tracker ────────────────────────────────────────────────────────

/// One cell of the activity grid.
#[derive(Clone, Debug)]
pub struct ActivityDay {
    pub date: String,
    pub count: i32,
    pub correct: i32,
}

/// The activity grid: one cell per day, with its exercise and correct counts.
pub fn activity_grid(stats: Vec<DailyStats>) -> (cells: Vec<ActivityDay>)
    ensures
        cells@.len() == stats@.len(),
        forall|i: int|
            0 <= i < stats@.len() ==> (#[trigger] cells@[i]).date == stats@[i].date && cells@[i].count
                == stats@[i].exercises_completed && cells@[i].correct == stats@[i].correct_answers,
{
    let mut cells: Vec<ActivityDay> = Vec::new();
    let mut i: usize = 0;
    while i < stats.len()
        invariant
            i <= stats@.len(),
            cells@.len() == i,
            forall|k: int|
                0 <= k < i ==> (#[trigger] cells@[k]).date == stats@[k].date && cells@[k].count
                    == stats@[k].exercises_completed && cells@[k].correct == stats@[k].correct_answers,
        decreases stats@.len() - i,
    {
        cells.push(
            ActivityDay {
                date: stats[i].date.clone(),
                count: stats[i].exercises_completed,
                correct: stats[i].correct_answers,
            },
        );
        i = i + 1;
    }
    cells
}

// ─── Session ID ──────────────────────────────────────────────────────────────

/// A lower-case hexadecimal digit.
pub open spec fn is_lower_hex(c: char) -> bool {
    ('0' <= c && c <= '9') || ('a' <= c && c <= 'f')
}

/// The hyphenated text of a random (version 4, RFC 4122 variant) UUID:
/// 36 characters, hyphens at 8, 13, 18 and 23, lower-case hexadecimal digits
/// elsewhere, the version digit `4` at 14 and one of `8`, `9`, `a`, `b` at 19.
pub open spec fn is_v4_uuid_text(s: Seq<char>) -> bool {
    &&& s.len() == 36
    &&& forall|i: int| 0 <= i < 36 ==> {
        if i == 8 || i == 13 || i == 18 || i == 23 {
            #[trigger] s[i] == '-'
        } else {
            is_lower_hex(s[i])
        }
    }
    &&& s[14] == '4'
    &&& (s[19] == '8' || s[19] == '9' || s[19] == 'a' || s[19] == 'b')
}

/// A fresh session identifier: `uuid::Uuid::new_v4().to_string()`. The crate
/// fills 128 random bits, then sets the version and variant bits; `Display`
/// writes the lower-case hyphenated form. Which UUID comes out depends on the
/// random source, so only its shape is stated.
#[verifier::external_body]
pub fn new_session_id() -> (s: String)
    ensures
        is_v4_uuid_text(s@),
{
    uuid::Uuid::new_v4().to_string()
}

} // verus!
