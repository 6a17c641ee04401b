//! Domain records of the vocabulary trainer: words, their review progress,
//! mastery levels, exercise kinds and exercise history.
//!
//! Instants are Unix timestamps in milliseconds (`i64`). The easiness factor
//! is kept in hundredths (2.5 is `250`) and review intervals in hundredths of
//! a day (1.5 days is `150`), so that every quantity of the SM-2 schedule is
//! an exact integer.
use vstd::prelude::*;
use crate::text::{owned, str_eq};

verus! {

/// How well a word is known.
#[derive(Clone, Copy, Debug, PartialEq, Eq, Structural)]
pub enum MasteryLevel {
    New,
    Learning,
    Reviewing,
    Mastered,
}

/// The stored name of a mastery level.
pub open spec fn mastery_name(m: MasteryLevel) -> Seq<char> {
    match m {
        MasteryLevel::New => "new"@,
        MasteryLevel::Learning => "learning"@,
        MasteryLevel::Reviewing => "reviewing"@,
        MasteryLevel::Mastered => "mastered"@,
    }
}

/// The mastery level a stored name stands for; unknown names read as `New`.
pub open spec fn mastery_from_name(s: Seq<char>) -> MasteryLevel {
    if s == "learning"@ {
        MasteryLevel::Learning
    } else if s == "reviewing"@ {
        MasteryLevel::Reviewing
    } else if s == "mastered"@ {
        MasteryLevel::Mastered
    } else {
        MasteryLevel::New
    }
}

impl MasteryLevel {
    pub fn from_str(s: &str) -> (m: MasteryLevel)
        ensures
            m == mastery_from_name(s@),
    {
        if str_eq(s, "learning") {
            MasteryLevel::Learning
        } else if str_eq(s, "reviewing") {
            MasteryLevel::Reviewing
        } else if str_eq(s, "mastered") {
            MasteryLevel::Mastered
        } else {
            MasteryLevel::New
        }
    }

    pub fn as_str(&self) -> (s: &'static str)
        ensures
            s@ == mastery_name(*self),
    {
        match self {
            MasteryLevel::New => "new",
            MasteryLevel::Learning => "learning",
            MasteryLevel::Reviewing => "reviewing",
            MasteryLevel::Mastered => "mastered",
        }
    }
}

/// The kinds of exercise the trainer can present.
#[derive(Clone, Copy, Debug, PartialEq, Eq, Structural)]
pub enum ExerciseType {
    Introduction,
    MultipleChoice,
    FillInBlank,
    ContextualGuess,
    SpellingCheck,
    SynonymMatch,
    DefinitionRecall,
    TrueFalse,
}

/// The stored name of an exercise kind.
pub open spec fn exercise_type_name(t: ExerciseType) -> Seq<char> {
    match t {
        ExerciseType::Introduction => "introduction"@,
        ExerciseType::MultipleChoice => "multiple_choice"@,
        ExerciseType::FillInBlank => "fill_in_blank"@,
        ExerciseType::ContextualGuess => "contextual_guess"@,
        ExerciseType::SpellingCheck => "spelling_check"@,
        ExerciseType::SynonymMatch => "synonym_match"@,
        ExerciseType::DefinitionRecall => "definition_recall"@,
        ExerciseType::TrueFalse => "true_false"@,
    }
}

/// The exercise kind a stored name stands for; unknown names read as `TrueFalse`.
pub open spec fn exercise_type_from_name(s: Seq<char>) -> ExerciseType {
    if s == "introduction"@ {
        ExerciseType::Introduction
    } else if s == "multiple_choice"@ {
        ExerciseType::MultipleChoice
    } else if s == "fill_in_blank"@ {
        ExerciseType::FillInBlank
    } else if s == "contextual_guess"@ {
        ExerciseType::ContextualGuess
    } else if s == "spelling_check"@ {
        ExerciseType::SpellingCheck
    } else if s == "synonym_match"@ {
        ExerciseType::SynonymMatch
    } else if s == "definition_recall"@ {
        ExerciseType::DefinitionRecall
    } else {
        ExerciseType::TrueFalse
    }
}

impl ExerciseType {
    pub fn from_str(s: &str) -> (t: ExerciseType)
        ensures
            t == exercise_type_from_name(s@),
    {
        if str_eq(s, "introduction") {
            ExerciseType::Introduction
        } else if str_eq(s, "multiple_choice") {
            ExerciseType::MultipleChoice
        } else if str_eq(s, "fill_in_blank") {
            ExerciseType::FillInBlank
        } else if str_eq(s, "contextual_guess") {
            ExerciseType::ContextualGuess
        } else if str_eq(s, "spelling_check") {
            ExerciseType::SpellingCheck
        } else if str_eq(s, "synonym_match") {
            ExerciseType::SynonymMatch
        } else if str_eq(s, "definition_recall") {
            ExerciseType::DefinitionRecall
        } else {
            ExerciseType::TrueFalse
        }
    }

    pub fn as_str(&self) -> (s: &'static str)
        ensures
            s@ == exercise_type_name(*self),
    {
        match self {
            ExerciseType::Introduction => "introduction",
            ExerciseType::MultipleChoice => "multiple_choice",
            ExerciseType::FillInBlank => "fill_in_blank",
            ExerciseType::ContextualGuess => "contextual_guess",
            ExerciseType::SpellingCheck => "spelling_check",
            ExerciseType::SynonymMatch => "synonym_match",
            ExerciseType::DefinitionRecall => "definition_recall",
            ExerciseType::TrueFalse => "true_false",
        }
    }
}

/// A vocabulary entry.
#[derive(Clone, Debug)]
pub struct Word {
    pub id: i64,
    pub term: String,
    pub definition: String,
    /// Polish translation or explanation.
    pub definition_pl: Option<String>,
    pub part_of_speech: String,
    pub phonetic: Option<String>,
    pub examples: Vec<String>,
    pub synonyms: Vec<String>,
    pub antonyms: Vec<String>,
    pub tags: Vec<String>,
    /// 1 (easiest) to 5 (hardest).
    pub difficulty: i32,
    /// Unix milliseconds.
    pub created_at: i64,
    pub is_active: bool,
    /// Example sentence in Polish (flashcard front).
    pub sentence_pl: Option<String>,
    /// Example sentence in English (flashcard back).
    pub sentence_en: Option<String>,
    pub category: Option<String>,
}

/// The spaced-repetition state of one word.
#[derive(Clone, Debug)]
pub struct WordProgress {
    pub id: i64,
    pub word_id: i64,
    /// SM-2 easiness factor in hundredths (2.5 is `250`).
    pub easiness_hundredths: i64,
    /// Current interval in hundredths of a day.
    pub interval_centidays: i64,
    pub repetitions: i32,
    /// Consecutive successful recalls (reset by a failed one).
    pub iterations: i32,
    pub next_review_at: i64,
    pub last_review_at: Option<i64>,
    pub total_reviews: i32,
    pub correct_reviews: i32,
    pub streak: i32,
    pub introduced_at: Option<i64>,
    pub session_reviews: i32,
    pub next_session_review_at: Option<i64>,
    pub mastery_level: MasteryLevel,
}

/// The starting easiness factor, 2.5.
pub open spec fn initial_easiness() -> int {
    250
}

impl WordProgress {
    /// The progress row created for a word that has never been reviewed:
    /// easiness 2.5, no interval, due now.
    pub fn fresh(id: i64, word_id: i64, now: i64) -> (p: WordProgress)
        ensures
            p.id == id,
            p.word_id == word_id,
            p.easiness_hundredths == initial_easiness(),
            p.interval_centidays == 0,
            p.repetitions == 0,
            p.iterations == 0,
            p.next_review_at == now,
            p.last_review_at is None,
            p.total_reviews == 0,
            p.correct_reviews == 0,
            p.streak == 0,
            p.introduced_at is None,
            p.session_reviews == 0,
            p.next_session_review_at is None,
            p.mastery_level == MasteryLevel::New,
    {
        WordProgress {
            id,
            word_id,
            easiness_hundredths: 250,
            interval_centidays: 0,
            repetitions: 0,
            iterations: 0,
            next_review_at: now,
            last_review_at: None,
            total_reviews: 0,
            correct_reviews: 0,
            streak: 0,
            introduced_at: None,
            session_reviews: 0,
            next_session_review_at: None,
            mastery_level: MasteryLevel::New,
        }
    }
}

/// One answered exercise.
#[derive(Clone, Debug)]
pub struct ExerciseHistory {
    pub id: i64,
    pub word_id: i64,
    pub exercise_type: ExerciseType,
    pub response_time_ms: i64,
    pub quality: i32,
    pub was_correct: bool,
    pub user_answer: Option<String>,
    pub session_id: String,
    pub completed_at: i64,
}

/// Totals of one calendar day.
#[derive(Clone, Debug)]
pub struct DailyStats {
    pub date: String,
    pub exercises_completed: i32,
    pub correct_answers: i32,
    pub words_reviewed: i32,
    pub words_mastered: i32,
    pub total_time_ms: i64,
    pub streak_days: i32,
}

// ─── Statistics ──────────────────────────────────────────────────────────────

/// The day number (days since 0001-01-01, counted from 1) of a
/// `"%Y-%m-%d"` date, when it parses.
pub uninterp spec fn spec_parse_day(s: Seq<char>) -> Option<int>;

/// The `"%Y-%m-%d"` form of a day number, when it is a representable date.
pub uninterp spec fn spec_format_day(n: int) -> Option<Seq<char>>;

/// `chrono::NaiveDate::parse_from_str(s, "%Y-%m-%d")`, as a day number
/// (`Datelike::num_days_from_ce`); `None` when it does not parse. The value
/// depends on the text alone.
#[verifier::external_body]
pub fn parse_day(s: &str) -> (r: Option<i32>)
    ensures
        r is None <==> spec_parse_day(s@) is None,
        r matches Some(n) ==> spec_parse_day(s@) == Some(n as int),
{
    match chrono::NaiveDate::parse_from_str(s, "%Y-%m-%d") {
        Ok(d) => Some(chrono::Datelike::num_days_from_ce(&d)),
        Err(_) => None,
    }
}

/// `chrono::NaiveDate::from_num_days_from_ce_opt(n)` formatted with
/// `"%Y-%m-%d"`; `None` outside chrono's range of dates. The value depends
/// on `n` alone.
#[verifier::external_body]
pub fn format_day(n: i32) -> (r: Option<String>)
    ensures
        r is None <==> spec_format_day(n as int) is None,
        r matches Some(s) ==> spec_format_day(n as int) == Some(s@),
{
    match chrono::NaiveDate::from_num_days_from_ce_opt(n) {
        Some(d) => Some(d.format("%Y-%m-%d").to_string()),
        None => None,
    }
}

/// The day before a `"%Y-%m-%d"` date, in the same form.
pub open spec fn day_before(s: Seq<char>) -> Option<Seq<char>> {
    match spec_parse_day(s) {
        Some(n) => if n > i32::MIN {
            spec_format_day(n - 1)
        } else {
            None
        },
        None => None,
    }
}

/// The number of leading `days` that are `expected`, the day before it, the
/// day before that, and so on (counting stops where a day has no predecessor).
pub open spec fn streak_from(days: Seq<Seq<char>>, expected: Seq<char>) -> nat
    decreases days.len(),
{
    if days.len() > 0 && days[0] == expected {
        1 + match day_before(expected) {
            Some(p) => streak_from(days.skip(1), p),
            None => 0,
        }
    } else {
        0
    }
}

fn previous_day(s: &str) -> (r: Option<String>)
    ensures
        r is None <==> day_before(s@) is None,
        r matches Some(p) ==> day_before(s@) == Some(p@),
{
    match parse_day(s) {
        Some(n) => if n > i32::MIN {
            format_day(n - 1)
        } else {
            None
        },
        None => None,
    }
}

/// Consecutive practice days ending today: `days` are the distinct practice
/// dates, newest first, and `today` is today's date, both `"%Y-%m-%d"`.
pub fn calculate_streak(days: &Vec<String>, today: &str) -> (n: i32)
    requires
        days@.len() <= i32::MAX,
    ensures
        n as int == streak_from(days@.map_values(|d: String| d@), today@),
{
    let ghost all = days@.map_values(|d: String| d@);
    let mut streak: i32 = 0;
    let mut expected = owned(today);
    let mut i: usize = 0;
    assert(all.skip(0) =~= all);
    while i < days.len()
        invariant
            all == days@.map_values(|d: String| d@),
            days@.len() <= i32::MAX,
            i <= days@.len(),
            streak == i,
            streak_from(all, today@) == i + streak_from(all.skip(i as int), expected@),
        decreases days@.len() - i,
    {
        let ghost rest = all.skip(i as int);
        assert(rest[0] == days@[i as int]@);
        if days[i] != expected {
            return streak;
        }
        streak = streak + 1;
        assert(rest.skip(1) =~= all.skip(i + 1));
        match previous_day(expected.as_str()) {
            Some(p) => {
                expected = p;
            },
            None => {
                return streak;
            },
        }
        i = i + 1;
    }
    streak
}

/// The dashboard totals.
#[derive(Clone, Debug)]
pub struct OverallStats {
    pub total_words: i32,
    pub mastered_words: i32,
    pub total_exercises: i32,
    pub correct_answers: i32,
    pub accuracy_percent: i32,
    pub current_streak: i32,
}

/// `n / d` rounded toward zero, as Rust's integer division.
pub open spec fn div_toward_zero(n: int, d: int) -> int {
    if n >= 0 {
        n / d
    } else {
        -((-n) / d)
    }
}

/// Percentage of correct answers (rounded toward zero), 0 without exercises.
pub open spec fn accuracy_of(correct: int, total: int) -> int {
    if total > 0 {
        div_toward_zero(correct * 100, total)
    } else {
        0
    }
}

/// The dashboard totals, with the accuracy derived from the counts.
pub fn overall_stats(
    total_words: i32,
    mastered_words: i32,
    total_exercises: i32,
    correct_answers: i32,
    current_streak: i32,
) -> (s: OverallStats)
    requires
        total_exercises > 0 ==> i32::MIN <= correct_answers * 100 <= i32::MAX,
    ensures
        s.total_words == total_words,
        s.mastered_words == mastered_words,
        s.total_exercises == total_exercises,
        s.correct_answers == correct_answers,
        s.accuracy_percent == accuracy_of(correct_answers as int, total_exercises as int),
        s.current_streak == current_streak,
{
    let accuracy_percent = if total_exercises > 0 {
        let n = correct_answers as i64 * 100;
        let d = total_exercises as i64;
        if n >= 0 {
            (n / d) as i32
        } else {
            (-((-n) / d)) as i32
        }
    } else {
        0
    };
    OverallStats {
        total_words,
        mastered_words,
        total_exercises,
        correct_answers,
        accuracy_percent,
        current_streak,
    }
}

/// With at least one exercise and no more correct answers than exercises,
/// the accuracy is a percentage.
pub proof fn lemma_accuracy_is_percentage(correct: int, total: int)
    requires
        0 <= correct <= total,
        total > 0,
    ensures
        0 <= accuracy_of(correct, total) <= 100,
{
    assert(correct * 100 <= total * 100) by (nonlinear_arith)
        requires
            correct <= total,
    ;
    assert((correct * 100) / total <= 100) by (nonlinear_arith)
        requires
            correct * 100 <= total * 100,
            total > 0,
            correct >= 0,
    ;
}

/// The word id a flashcard query excludes: the given one, or -1 (no word has it).
pub fn excluded_word_id(exclude_id: Option<i64>) -> (id: i64)
    ensures
        id == match exclude_id {
            Some(x) => x,
            None => -1i64,
        },
{
    match exclude_id {
        Some(x) => x,
        None => -1,
    }
}

} // verus!
