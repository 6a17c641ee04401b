//! The data behind the user-interface commands: categories, settings, SRS
//! grades and their results, the SRS overview, word creation and import.
use vstd::prelude::*;
use crate::db::{Word, WordProgress, mastery_name};
use crate::db::ExerciseType;
use crate::learning::{
    graded_answer_fits, graded_in_range, graded_outcome, process_graded_answer_at, AnswerOutcome,
    AnswerResult,
};
use crate::learning::scheduler::SchedulerConfig;
use crate::learning::sm2::round_div;
use crate::text::{
    concat3, decimal, decimal_string, owned, prefix_chars, prefix_of, str_eq, trim_str, trimmed,
    contains_str, has_substring,
};
use crate::{hhmm_minutes, parse_hhmm_to_mins};

verus! {

// ─── Categories ──────────────────────────────────────────────────────────────

pub open spec fn category_names() -> Seq<Seq<char>> {
    seq![
        "IT"@, "biznes"@, "czasowniki frazowe"@, "osobowość"@, "uroda i pielęgnacja"@,
        "wygląd zewnętrzny"@, "ubrania"@, "rodzina i związki"@, "sport i czas wolny"@,
        "jedzenie i gotowanie"@, "samopoczucie"@, "zdrowie i choroby"@, "ciało i organy"@,
        "polityka i społeczeństwo"@, "historia"@, "kultura i sztuka"@, "wojny i katastrofy"@,
        "samochód"@, "podróżowanie"@, "praca"@, "finanse i biznes"@, "sprzedaż i marketing"@,
        "prawo i przestępczość"@, "technologia"@, "nauka i badania"@, "edukacja"@,
        "wyrażenia przyimkowe"@, "bez kategorii"@,
    ]
}

/// The word categories offered to the user, ending with the catch-all
/// "bez kategorii".
pub fn global_categories() -> (v: Vec<String>)
    ensures
        v@.map_values(|s: String| s@) == category_names(),
{
    let names: [&'static str; 28] = [
        "IT", "biznes", "czasowniki frazowe", "osobowość", "uroda i pielęgnacja",
        "wygląd zewnętrzny", "ubrania", "rodzina i związki", "sport i czas wolny",
        "jedzenie i gotowanie", "samopoczucie", "zdrowie i choroby", "ciało i organy",
        "polityka i społeczeństwo", "historia", "kultura i sztuka", "wojny i katastrofy",
        "samochód", "podróżowanie", "praca", "finanse i biznes", "sprzedaż i marketing",
        "prawo i przestępczość", "technologia", "nauka i badania", "edukacja",
        "wyrażenia przyimkowe", "bez kategorii",
    ];
    assert(names@.map_values(|s: &str| s@) =~= category_names());
    let mut v: Vec<String> = Vec::new();
    let mut i: usize = 0;
    while i < 28
        invariant
            i <= 28,
            names@.len() == 28,
            v@.len() == i,
            forall|k: int| 0 <= k < i ==> (#[trigger] v@[k])@ == names@[k]@,
        decreases 28 - i,
    {
        v.push(owned(names[i]));
        i = i + 1;
    }
    assert(v@.map_values(|s: String| s@) =~= names@.map_values(|s: &str| s@));
    v
}

// ─── Settings ────────────────────────────────────────────────────────────────

#[derive(Clone, Debug)]
pub struct AppSettings {
    pub exercises_per_day: u32,
    pub idle_threshold_secs: u32,
    pub min_gap_minutes: u32,
    pub autostart: bool,
    pub show_session_word: bool,
    pub sound_effects: bool,
    pub work_hours_only: bool,
    pub work_hours_start: String,
    pub work_hours_end: String,
    pub active_category: Option<String>,
}

impl Default for AppSettings {
    fn default() -> (s: Self)
        ensures
            s.exercises_per_day == 50,
            s.idle_threshold_secs == 5,
            s.min_gap_minutes == 30,
            s.autostart,
            s.show_session_word,
            !s.sound_effects,
            s.work_hours_only,
            s.work_hours_start@ == "08:00"@,
            s.work_hours_end@ == "22:00"@,
            s.active_category is None,
    {
        AppSettings {
            exercises_per_day: 50,
            idle_threshold_secs: 5,
            min_gap_minutes: 30,
            autostart: true,
            show_session_word: true,
            sound_effects: false,
            work_hours_only: true,
            work_hours_start: owned("08:00"),
            work_hours_end: owned("22:00"),
            active_category: None,
        }
    }
}

/// The working hours of the settings can be read as minutes of a `u32`.
pub open spec fn settings_hours_fit(s: AppSettings) -> bool {
    &&& hhmm_minutes(s.work_hours_start@, 480u32) <= u32::MAX
    &&& hhmm_minutes(s.work_hours_end@, 1320u32) <= u32::MAX
}

/// The scheduler configuration a set of settings stands for: the gap in
/// seconds, a 10-second poll, the daily limit (as `i32`, wrapping as `as`
/// does) and the working hours as minutes from midnight.
pub fn scheduler_config_from(settings: &AppSettings) -> (c: SchedulerConfig)
    requires
        settings_hours_fit(*settings),
    ensures
        c.idle_threshold_secs == settings.idle_threshold_secs,
        c.min_popup_gap_secs == settings.min_gap_minutes * 60,
        c.poll_interval_secs == 10,
        c.max_daily_exercises == settings.exercises_per_day as i32,
        c.work_hours_start == hhmm_minutes(settings.work_hours_start@, 480u32),
        c.work_hours_end == hhmm_minutes(settings.work_hours_end@, 1320u32),
{
    SchedulerConfig {
        idle_threshold_secs: settings.idle_threshold_secs as u64,
        min_popup_gap_secs: (settings.min_gap_minutes as u64) * 60,
        poll_interval_secs: 10,
        max_daily_exercises: settings.exercises_per_day as i32,
        work_hours_start: parse_hhmm_to_mins(settings.work_hours_start.as_str(), 8 * 60),
        work_hours_end: parse_hhmm_to_mins(settings.work_hours_end.as_str(), 22 * 60),
    }
}

// ─── SRS grades ──────────────────────────────────────────────────────────────

/// The four buttons of a flashcard.
#[derive(Clone, Copy, Debug, PartialEq, Eq, Structural)]
pub enum SrsGrade {
    Again,
    Hard,
    Good,
    Easy,
}

pub open spec fn grade_quality(g: SrsGrade) -> int {
    match g {
        SrsGrade::Again => 1,
        SrsGrade::Hard => 3,
        SrsGrade::Good => 4,
        SrsGrade::Easy => 5,
    }
}

pub open spec fn grade_name(g: SrsGrade) -> Seq<char> {
    match g {
        SrsGrade::Again => "again"@,
        SrsGrade::Hard => "hard"@,
        SrsGrade::Good => "good"@,
        SrsGrade::Easy => "easy"@,
    }
}

impl SrsGrade {
    pub fn to_quality(self) -> (q: i32)
        ensures
            q == grade_quality(self),
    {
        match self {
            SrsGrade::Again => 1,
            SrsGrade::Hard => 3,
            SrsGrade::Good => 4,
            SrsGrade::Easy => 5,
        }
    }

    pub fn as_str(self) -> (s: &'static str)
        ensures
            s@ == grade_name(self),
    {
        match self {
            SrsGrade::Again => "again",
            SrsGrade::Hard => "hard",
            SrsGrade::Good => "good",
            SrsGrade::Easy => "easy",
        }
    }

    /// Every grade but `Again` is a correct answer.
    pub fn was_correct(self) -> (b: bool)
        ensures
            b == (self != SrsGrade::Again),
    {
        self != SrsGrade::Again
    }
}

/// Only `Again` fails; every grade maps to a quality on the same side of the
/// pass mark (3).
pub proof fn lemma_grade_quality_agrees(g: SrsGrade)
    ensures
        (g != SrsGrade::Again) <==> grade_quality(g) >= 3,
        1 <= grade_quality(g) <= 5,
{
}

/// The grade behind a two-button flashcard decision: "known" is `Good`,
/// anything else `Again`.
pub fn grade_for_decision(decision: &str) -> (g: SrsGrade)
    ensures
        g == (if decision@ == "known"@ {
            SrsGrade::Good
        } else {
            SrsGrade::Again
        }),
{
    if str_eq(decision, "known") {
        SrsGrade::Good
    } else {
        SrsGrade::Again
    }
}

/// Whether a flashcard graded `grade` can be recorded at `now` without
/// leaving the integer range.
pub fn flashcard_grade_fits(word: &Word, progress: &WordProgress, grade: SrsGrade, now: i64) -> (b: bool)
    ensures
        b == graded_in_range(*word, *progress, grade_quality(grade), now),
{
    graded_answer_fits(word, progress, grade.to_quality(), now)
}

/// Records a flashcard graded `grade` at `now`: the SM-2 step runs with the
/// grade's quality (Again 1, Hard 3, Good 4, Easy 5), the answer counts as
/// correct for every grade but `Again`, and the history row is an
/// introduction with no response time and no typed answer.
pub fn process_flashcard_grade_at(
    word: Word,
    progress: WordProgress,
    grade: SrsGrade,
    session_id: &str,
    now: i64,
) -> (out: AnswerOutcome)
    requires
        graded_in_range(word, progress, grade_quality(grade), now),
    ensures
        graded_outcome(
            word,
            progress,
            grade_quality(grade),
            grade != SrsGrade::Again,
            0,
            None,
            ExerciseType::Introduction,
            session_id@,
            now,
            out,
        ),
{
    let quality = grade.to_quality();
    let was_correct = grade.was_correct();
    process_graded_answer_at(
        word,
        progress,
        quality,
        was_correct,
        0,
        None,
        ExerciseType::Introduction,
        session_id,
        now,
    )
}

// ─── Interval label ──────────────────────────────────────────────────────────

/// Minutes in an interval of `centidays` hundredths of a day, rounded and
/// saturated to `i64`.
pub open spec fn interval_minutes(centidays: int) -> int {
    let m = round_div(centidays * 144, 10);
    if m > i64::MAX {
        i64::MAX as int
    } else if m < i64::MIN {
        i64::MIN as int
    } else {
        m
    }
}

/// The Polish label of an interval: "teraz", "za N minut", "za N h",
/// "jutro" or "za N dni" (as "za 6 dni" or "za 10 minut").
pub open spec fn interval_label(centidays: int) -> Seq<char> {
    let m = interval_minutes(centidays);
    if m < 1 {
        "teraz"@
    } else if m < 60 {
        "za "@ + decimal(m as nat) + " minut"@
    } else if m < 1440 {
        "za "@ + decimal((m / 60) as nat) + " h"@
    } else if m / 1440 == 1 {
        "jutro"@
    } else {
        "za "@ + decimal((m / 1440) as nat) + " dni"@
    }
}

/// A human-readable Polish label for an interval given in hundredths of a day.
pub fn format_interval_pl(centidays: i64) -> (s: String)
    ensures
        s@ == interval_label(centidays as int),
{
    let n = centidays as i128 * 144;
    let rounded = if n >= 0 {
        (n + 5) / 10
    } else {
        -((-n + 5) / 10)
    };
    let m: i64 = if rounded > i64::MAX as i128 {
        i64::MAX
    } else if rounded < i64::MIN as i128 {
        i64::MIN
    } else {
        rounded as i64
    };
    if m < 1 {
        owned("teraz")
    } else if m < 60 {
        concat3("za ", decimal_string(m as u64).as_str(), " minut")
    } else if m < 1440 {
        concat3("za ", decimal_string((m / 60) as u64).as_str(), " h")
    } else {
        let d = m / 1440;
        if d == 1 {
            owned("jutro")
        } else {
            concat3("za ", decimal_string(d as u64).as_str(), " dni")
        }
    }
}

// ─── Flashcard answers ───────────────────────────────────────────────────────

/// The text on a flashcard's front: the Polish definition, or the first 60
/// characters of the definition.
pub open spec fn front_text(w: Word) -> Seq<char> {
    match w.definition_pl {
        Some(d) => d@,
        None => prefix_chars(w.definition@, 60),
    }
}

pub fn flashcard_front(word: &Word) -> (s: String)
    ensures
        s@ == front_text(*word),
{
    match &word.definition_pl {
        Some(d) => owned(d.as_str()),
        None => prefix_of(word.definition.as_str(), 60),
    }
}

/// The outcome of a graded card, with the next card to show.
#[derive(Clone, Debug)]
pub struct SrsResult {
    pub word_id: i64,
    pub grade: String,
    pub new_mastery: String,
    pub new_interval_centidays: i64,
    pub new_easiness_hundredths: i64,
    pub streak: i32,
    pub next_review_label: String,
    pub next_review_at: i64,
    pub next_word_id: Option<i64>,
    pub next_term_pl: Option<String>,
    pub next_term_en: Option<String>,
    pub next_part_of_speech: Option<String>,
    pub next_phonetic: Option<String>,
    pub next_sentence_pl: Option<String>,
    pub next_sentence_en: Option<String>,
}

pub open spec fn srs_result_of(r: SrsResult, word_id: i64, grade: SrsGrade, a: AnswerResult, next: Option<Word>) -> bool {
    &&& r.word_id == word_id
    &&& r.grade@ == grade_name(grade)
    &&& r.new_mastery == a.mastery_level
    &&& r.new_interval_centidays == a.new_interval_centidays
    &&& r.new_easiness_hundredths == a.new_easiness_hundredths
    &&& r.streak == a.streak
    &&& r.next_review_label@ == interval_label(a.new_interval_centidays as int)
    &&& r.next_review_at == a.next_review_at
    &&& match next {
        Some(w) => {
            &&& r.next_word_id == Some(w.id)
            &&& r.next_term_pl matches Some(t) && t@ == front_text(w)
            &&& r.next_term_en == Some(w.term)
            &&& r.next_part_of_speech == Some(w.part_of_speech)
            &&& r.next_phonetic == w.phonetic
            &&& r.next_sentence_pl == w.sentence_pl
            &&& r.next_sentence_en == w.sentence_en
        },
        None => {
            &&& r.next_word_id is None
            &&& r.next_term_pl is None
            &&& r.next_term_en is None
            &&& r.next_part_of_speech is None
            &&& r.next_phonetic is None
            &&& r.next_sentence_pl is None
            &&& r.next_sentence_en is None
        },
    }
}

/// The result of grading card `word_id` with `grade`, given the recorded
/// answer and the next card (if any).
pub fn build_srs_result(word_id: i64, grade: SrsGrade, answer: AnswerResult, next: Option<Word>) -> (r: SrsResult)
    ensures
        srs_result_of(r, word_id, grade, answer, next),
{
    let next_review_label = format_interval_pl(answer.new_interval_centidays);
    let grade_text = owned(grade.as_str());
    match next {
        Some(w) => {
            let term_pl = flashcard_front(&w);
            SrsResult {
                word_id,
                grade: grade_text,
                new_mastery: answer.mastery_level,
                new_interval_centidays: answer.new_interval_centidays,
                new_easiness_hundredths: answer.new_easiness_hundredths,
                streak: answer.streak,
                next_review_label,
                next_review_at: answer.next_review_at,
                next_word_id: Some(w.id),
                next_term_pl: Some(term_pl),
                next_term_en: Some(w.term),
                next_part_of_speech: Some(w.part_of_speech),
                next_phonetic: w.phonetic,
                next_sentence_pl: w.sentence_pl,
                next_sentence_en: w.sentence_en,
            }
        },
        None => SrsResult {
            word_id,
            grade: grade_text,
            new_mastery: answer.mastery_level,
            new_interval_centidays: answer.new_interval_centidays,
            new_easiness_hundredths: answer.new_easiness_hundredths,
            streak: answer.streak,
            next_review_label,
            next_review_at: answer.next_review_at,
            next_word_id: None,
            next_term_pl: None,
            next_term_en: None,
            next_part_of_speech: None,
            next_phonetic: None,
            next_sentence_pl: None,
            next_sentence_en: None,
        },
    }
}

/// The two-button flashcard decisions.
#[derive(Clone, Copy, Debug, PartialEq, Eq, Structural)]
pub enum FlashcardDecision {
    Known,
    Practice,
}

/// The outcome of a two-button flashcard answer.
#[derive(Clone, Debug)]
pub struct FlashcardResult {
    pub word_id: i64,
    pub decision: String,
    pub new_mastery: String,
    pub new_interval_centidays: i64,
    pub streak: i32,
    pub next_word_id: Option<i64>,
    pub next_term_pl: Option<String>,
    pub next_term_en: Option<String>,
    pub next_part_of_speech: Option<String>,
}

/// The two-button result carried over from the graded result.
pub fn flashcard_result(decision: String, srs: SrsResult) -> (r: FlashcardResult)
    ensures
        r.word_id == srs.word_id,
        r.decision == decision,
        r.new_mastery == srs.new_mastery,
        r.new_interval_centidays == srs.new_interval_centidays,
        r.streak == srs.streak,
        r.next_word_id == srs.next_word_id,
        r.next_term_pl == srs.next_term_pl,
        r.next_term_en == srs.next_term_en,
        r.next_part_of_speech == srs.next_part_of_speech,
{
    FlashcardResult {
        word_id: srs.word_id,
        decision,
        new_mastery: srs.new_mastery,
        new_interval_centidays: srs.new_interval_centidays,
        streak: srs.streak,
        next_word_id: srs.next_word_id,
        next_term_pl: srs.next_term_pl,
        next_term_en: srs.next_term_en,
        next_part_of_speech: srs.next_part_of_speech,
    }
}

// ─── SRS overview ────────────────────────────────────────────────────────────

pub const DAY_MS: i64 = 86_400_000;

/// The UTC calendar day of an instant (days since the Unix epoch).
pub open spec fn utc_day(t: int) -> int {
    t / (DAY_MS as int)
}

fn utc_day_of(t: i64) -> (d: i64)
    ensures
        d == utc_day(t as int),
{
    if t >= 0 {
        t / DAY_MS
    } else {
        let u = -(t + 1);
        assert(utc_day(t as int) == -(u / DAY_MS) - 1) by (nonlinear_arith)
            requires
                u == -(t + 1),
                t < 0,
        ;
        -(u / DAY_MS) - 1
    }
}

/// Where a word stands in its review schedule at `now`.
pub open spec fn review_status_name(p: WordProgress, now: i64) -> Seq<char> {
    if p.total_reviews == 0 {
        "never"@
    } else if p.next_review_at <= now {
        "overdue"@
    } else if utc_day(p.next_review_at as int) == utc_day(now as int) {
        "today"@
    } else {
        "future"@
    }
}

/// "never" (not yet reviewed), "overdue" (due by `now`), "today" (due later
/// on the same UTC day) or "future".
pub fn review_status(p: &WordProgress, now: i64) -> (s: String)
    ensures
        s@ == review_status_name(*p, now),
{
    if p.total_reviews == 0 {
        owned("never")
    } else if p.next_review_at <= now {
        owned("overdue")
    } else if utc_day_of(p.next_review_at) == utc_day_of(now) {
        owned("today")
    } else {
        owned("future")
    }
}

/// What each review status means: "never" for a word not yet reviewed,
/// "overdue" when its next review is at or before `now`, "today" when it
/// comes later on the same UTC calendar day (days of 86 400 000 ms counted
/// from the Unix epoch, rounded down), and "future" when it comes on a later
/// day.
pub proof fn lemma_review_status_meaning(p: WordProgress, now: i64)
    ensures
        (review_status_name(p, now) == "never"@) <==> p.total_reviews == 0,
        (review_status_name(p, now) == "overdue"@) <==> (p.total_reviews != 0 && p.next_review_at <= now),
        (review_status_name(p, now) == "today"@) <==> (p.total_reviews != 0 && now < p.next_review_at
            && p.next_review_at / 86_400_000 == now / 86_400_000),
        (review_status_name(p, now) == "future"@) <==> (p.total_reviews != 0 && now < p.next_review_at
            && p.next_review_at / 86_400_000 != now / 86_400_000),
{
    reveal_strlit("never");
    reveal_strlit("overdue");
    reveal_strlit("today");
    reveal_strlit("future");
    // The four names differ in length or in their first letter.
    assert("never"@.len() == 5 && "never"@[0] == 'n');
    assert("overdue"@.len() == 7);
    assert("today"@.len() == 5 && "today"@[0] == 't');
    assert("future"@.len() == 6);
    assert("never"@ != "today"@) by {
        assert("never"@[0] != "today"@[0]);
    }
}

/// A word with its SRS progress, as listed on the overview screen.
#[derive(Clone, Debug)]
pub struct WordWithProgress {
    pub id: i64,
    pub term: String,
    pub definition: String,
    pub definition_pl: Option<String>,
    pub part_of_speech: String,
    pub phonetic: Option<String>,
    pub difficulty: i32,
    pub tags: Vec<String>,
    pub sentence_pl: Option<String>,
    pub sentence_en: Option<String>,
    pub category: Option<String>,
    pub created_at: i64,
    pub mastery_level: String,
    pub repetitions: i32,
    pub interval_centidays: i64,
    pub easiness_hundredths: i64,
    pub streak: i32,
    pub total_reviews: i32,
    pub next_review_at: Option<i64>,
    pub last_review_at: Option<i64>,
    pub review_status: String,
}

pub open spec fn is_row_of(r: WordWithProgress, w: Word, p: WordProgress, now: i64) -> bool {
    &&& r.id == w.id
    &&& r.term == w.term
    &&& r.definition == w.definition
    &&& r.definition_pl == w.definition_pl
    &&& r.part_of_speech == w.part_of_speech
    &&& r.phonetic == w.phonetic
    &&& r.difficulty == w.difficulty
    &&& r.tags@ == w.tags@
    &&& r.sentence_pl == w.sentence_pl
    &&& r.sentence_en == w.sentence_en
    &&& r.category == w.category
    &&& r.created_at == w.created_at
    &&& r.mastery_level@ == mastery_name(p.mastery_level)
    &&& r.repetitions == p.repetitions
    &&& r.interval_centidays == p.interval_centidays
    &&& r.easiness_hundredths == p.easiness_hundredths
    &&& r.streak == p.streak
    &&& r.total_reviews == p.total_reviews
    &&& r.next_review_at == Some(p.next_review_at)
    &&& r.last_review_at == p.last_review_at
    &&& r.review_status@ == review_status_name(p, now)
}

fn clone_strings(v: &Vec<String>) -> (r: Vec<String>)
    ensures
        r@ == v@,
{
    let mut r: Vec<String> = Vec::new();
    let mut i: usize = 0;
    while i < v.len()
        invariant
            i <= v@.len(),
            r@ == v@.take(i as int),
        decreases v@.len() - i,
    {
        r.push(v[i].clone());
        i = i + 1;
        assert(r@ =~= v@.take(i as int));
    }
    assert(v@.take(i as int) =~= v@);
    r
}

/// The overview row of a word and its progress at `now`.
pub fn word_with_progress(w: &Word, p: &WordProgress, now: i64) -> (r: WordWithProgress)
    ensures
        is_row_of(r, *w, *p, now),
{
    WordWithProgress {
        id: w.id,
        term: w.term.clone(),
        definition: w.definition.clone(),
        definition_pl: w.definition_pl.clone(),
        part_of_speech: w.part_of_speech.clone(),
        phonetic: w.phonetic.clone(),
        difficulty: w.difficulty,
        tags: clone_strings(&w.tags),
        sentence_pl: w.sentence_pl.clone(),
        sentence_en: w.sentence_en.clone(),
        category: w.category.clone(),
        created_at: w.created_at,
        mastery_level: owned(p.mastery_level.as_str()),
        repetitions: p.repetitions,
        interval_centidays: p.interval_centidays,
        easiness_hundredths: p.easiness_hundredths,
        streak: p.streak,
        total_reviews: p.total_reviews,
        next_review_at: Some(p.next_review_at),
        last_review_at: p.last_review_at,
        review_status: review_status(p, now),
    }
}

/// Aggregate counts of the "today" panel.
#[derive(Clone, Debug)]
pub struct SrsTodayStats {
    pub due_today: usize,
    pub new_words: usize,
    pub learning: usize,
    pub reviewing: usize,
    pub mastered: usize,
    pub total: usize,
}

/// Rows whose review status is "overdue" or "today".
pub open spec fn is_due_row(r: WordWithProgress) -> bool {
    r.review_status@ == "overdue"@ || r.review_status@ == "today"@
}

/// How many rows satisfy `f`.
pub open spec fn count_rows(rows: Seq<WordWithProgress>, f: spec_fn(WordWithProgress) -> bool) -> nat
    decreases rows.len(),
{
    if rows.len() == 0 {
        0
    } else {
        count_rows(rows.drop_last(), f) + if f(rows.last()) {
            1nat
        } else {
            0nat
        }
    }
}

pub open spec fn has_mastery(name: Seq<char>) -> spec_fn(WordWithProgress) -> bool {
    |r: WordWithProgress| r.mastery_level@ == name
}

/// Each count of the "today" panel is at most the number of words.
pub proof fn lemma_count_rows_bounded(rows: Seq<WordWithProgress>, f: spec_fn(WordWithProgress) -> bool)
    ensures
        count_rows(rows, f) <= rows.len(),
    decreases rows.len(),
{
    if rows.len() > 0 {
        lemma_count_rows_bounded(rows.drop_last(), f);
    }
}

/// The counts of the "today" panel over the overview rows.
pub fn today_stats(rows: &Vec<WordWithProgress>) -> (s: SrsTodayStats)
    ensures
        s.due_today == count_rows(rows@, |r: WordWithProgress| is_due_row(r)),
        s.new_words == count_rows(rows@, has_mastery("new"@)),
        s.learning == count_rows(rows@, has_mastery("learning"@)),
        s.reviewing == count_rows(rows@, has_mastery("reviewing"@)),
        s.mastered == count_rows(rows@, has_mastery("mastered"@)),
        s.total == rows@.len(),
{
    let mut s = SrsTodayStats { due_today: 0, new_words: 0, learning: 0, reviewing: 0, mastered: 0, total: 0 };
    let mut i: usize = 0;
    while i < rows.len()
        invariant
            i <= rows@.len(),
            s.due_today == count_rows(rows@.take(i as int), |r: WordWithProgress| is_due_row(r)),
            s.new_words == count_rows(rows@.take(i as int), has_mastery("new"@)),
            s.learning == count_rows(rows@.take(i as int), has_mastery("learning"@)),
            s.reviewing == count_rows(rows@.take(i as int), has_mastery("reviewing"@)),
            s.mastered == count_rows(rows@.take(i as int), has_mastery("mastered"@)),
            s.total == 0,
        decreases rows@.len() - i,
    {
        let ghost prefix = rows@.take(i + 1);
        proof {
            assert(prefix.drop_last() =~= rows@.take(i as int));
            assert(prefix.last() == rows@[i as int]);
            lemma_count_rows_bounded(rows@.take(i as int), |r: WordWithProgress| is_due_row(r));
            lemma_count_rows_bounded(rows@.take(i as int), has_mastery("new"@));
            lemma_count_rows_bounded(rows@.take(i as int), has_mastery("learning"@));
            lemma_count_rows_bounded(rows@.take(i as int), has_mastery("reviewing"@));
            lemma_count_rows_bounded(rows@.take(i as int), has_mastery("mastered"@));
        }
        let row = &rows[i];
        if str_eq(row.review_status.as_str(), "overdue") || str_eq(row.review_status.as_str(), "today") {
            s.due_today = s.due_today + 1;
        }
        let level = row.mastery_level.as_str();
        if str_eq(level, "new") {
            s.new_words = s.new_words + 1;
        }
        if str_eq(level, "learning") {
            s.learning = s.learning + 1;
        }
        if str_eq(level, "reviewing") {
            s.reviewing = s.reviewing + 1;
        }
        if str_eq(level, "mastered") {
            s.mastered = s.mastered + 1;
        }
        i = i + 1;
    }
    assert(rows@.take(i as int) =~= rows@);
    s.total = rows.len();
    s
}

/// The overview: one row per word, then the counts over the rows.
#[derive(Clone, Debug)]
pub struct SrsOverview {
    pub today: SrsTodayStats,
    pub words: Vec<WordWithProgress>,
}

pub fn build_srs_overview(pairs: &Vec<(Word, WordProgress)>, now: i64) -> (o: SrsOverview)
    ensures
        o.words@.len() == pairs@.len(),
        forall|i: int| 0 <= i < pairs@.len() ==> is_row_of(#[trigger] o.words@[i], pairs@[i].0, pairs@[i].1, now),
        o.today.due_today == count_rows(o.words@, |r: WordWithProgress| is_due_row(r)),
        o.today.new_words == count_rows(o.words@, has_mastery("new"@)),
        o.today.learning == count_rows(o.words@, has_mastery("learning"@)),
        o.today.reviewing == count_rows(o.words@, has_mastery("reviewing"@)),
        o.today.mastered == count_rows(o.words@, has_mastery("mastered"@)),
        o.today.total == pairs@.len(),
{
    let mut rows: Vec<WordWithProgress> = Vec::new();
    let mut i: usize = 0;
    while i < pairs.len()
        invariant
            i <= pairs@.len(),
            rows@.len() == i,
            forall|k: int| 0 <= k < i ==> is_row_of(#[trigger] rows@[k], pairs@[k].0, pairs@[k].1, now),
        decreases pairs@.len() - i,
    {
        let pair = &pairs[i];
        rows.push(word_with_progress(&pair.0, &pair.1, now));
        i = i + 1;
    }
    let today = today_stats(&rows);
    SrsOverview { today, words: rows }
}

// ─── Words ───────────────────────────────────────────────────────────────────

/// `d` kept within 1..=5.
pub open spec fn clamp_difficulty(d: int) -> int {
    if d < 1 {
        1
    } else if d > 5 {
        5
    } else {
        d
    }
}

fn clamp_difficulty_exec(d: i32) -> (r: i32)
    ensures
        r == clamp_difficulty(d as int),
{
    if d < 1 {
        1
    } else if d > 5 {
        5
    } else {
        d
    }
}

/// A new active word created at `now`; its difficulty kept within 1..=5.
pub fn new_word(
    term: String,
    definition: String,
    definition_pl: Option<String>,
    part_of_speech: String,
    phonetic: Option<String>,
    examples: Vec<String>,
    synonyms: Vec<String>,
    antonyms: Vec<String>,
    tags: Vec<String>,
    difficulty: i32,
    sentence_pl: Option<String>,
    sentence_en: Option<String>,
    category: Option<String>,
    now: i64,
) -> (w: Word)
    ensures
        w == (Word {
            id: 0,
            term,
            definition,
            definition_pl,
            part_of_speech,
            phonetic,
            examples,
            synonyms,
            antonyms,
            tags,
            difficulty: clamp_difficulty(difficulty as int) as i32,
            created_at: now,
            is_active: true,
            sentence_pl,
            sentence_en,
            category,
        }),
{
    Word {
        id: 0,
        term,
        definition,
        definition_pl,
        part_of_speech,
        phonetic,
        examples,
        synonyms,
        antonyms,
        tags,
        difficulty: clamp_difficulty_exec(difficulty),
        created_at: now,
        is_active: true,
        sentence_pl,
        sentence_en,
        category,
    }
}

/// A word still waiting for a category: none, or the catch-all.
pub open spec fn needs_category(w: Word) -> bool {
    match w.category {
        None => true,
        Some(c) => c@ == "bez kategorii"@,
    }
}

/// The words of `ws` that need a category, in order.
pub open spec fn uncategorized(ws: Seq<Word>) -> Seq<Word>
    decreases ws.len(),
{
    if ws.len() == 0 {
        ws
    } else if needs_category(ws.last()) {
        uncategorized(ws.drop_last()).push(ws.last())
    } else {
        uncategorized(ws.drop_last())
    }
}

/// What the reclassification dialog needs: the uncategorized words and the
/// categories to choose from.
#[derive(Clone, Debug)]
pub struct ReclassifyPayload {
    pub words: Vec<Word>,
    pub categories: Vec<String>,
}

pub fn reclassify_payload(all_words: Vec<Word>) -> (r: ReclassifyPayload)
    ensures
        r.words@ == uncategorized(all_words@),
        r.categories@.map_values(|s: String| s@) == category_names(),
{
    let mut words: Vec<Word> = Vec::new();
    let ghost all = all_words@;
    for w in it: all_words
        invariant
            it.seq() == all,
            words@ == uncategorized(all.take(it.index() as int)),
    {
        proof {
            let i = it.index();
            assert(all.take(i + 1).drop_last() =~= all.take(i as int));
            assert(all.take(i + 1).last() == all[i as int]);
        }
        let keep = match &w.category {
            None => true,
            Some(c) => str_eq(c.as_str(), "bez kategorii"),
        };
        if keep {
            words.push(w);
        }
    }
    assert(all.take(all.len() as int) =~= all);
    ReclassifyPayload { words, categories: global_categories() }
}

// ─── JSON import ─────────────────────────────────────────────────────────────

/// One entry of an imported word list; only `term` and `definition` are
/// required.
#[derive(Clone, Debug)]
pub struct ImportedWord {
    pub term: String,
    pub definition: String,
    pub definition_pl: Option<String>,
    pub part_of_speech: Option<String>,
    pub phonetic: Option<String>,
    pub examples: Vec<String>,
    pub synonyms: Vec<String>,
    pub antonyms: Vec<String>,
    pub tags: Vec<String>,
    pub difficulty: Option<i32>,
    pub sentence_pl: Option<String>,
    pub sentence_en: Option<String>,
    pub category: Option<String>,
    pub created_at: Option<String>,
}

/// Tally of an import.
#[derive(Clone, Debug)]
pub struct ImportResult {
    pub added: usize,
    pub skipped: usize,
    pub warnings: Vec<String>,
}

impl ImportResult {
    pub fn new() -> (r: Self)
        ensures
            r.added == 0,
            r.skipped == 0,
            r.warnings@.len() == 0,
    {
        ImportResult { added: 0, skipped: 0, warnings: Vec::new() }
    }

    /// The result for an empty list: nothing added, one warning.
    pub fn empty_file() -> (r: Self)
        ensures
            r.added == 0,
            r.skipped == 0,
            r.warnings@.len() == 1,
            r.warnings@[0]@ == "Plik JSON jest pusty."@,
    {
        let mut warnings: Vec<String> = Vec::new();
        warnings.push(owned("Plik JSON jest pusty."));
        ImportResult { added: 0, skipped: 0, warnings }
    }

    pub fn record_added(&mut self)
        requires
            old(self).added < usize::MAX,
        ensures
            final(self).added == old(self).added + 1,
            final(self).skipped == old(self).skipped,
            final(self).warnings@ == old(self).warnings@,
    {
        self.added = self.added + 1;
    }

    pub fn record_skipped(&mut self, warning: String)
        requires
            old(self).skipped < usize::MAX,
        ensures
            final(self).added == old(self).added,
            final(self).skipped == old(self).skipped + 1,
            final(self).warnings@ == old(self).warnings@.push(warning),
    {
        self.warnings.push(warning);
        self.skipped = self.skipped + 1;
    }
}

/// The label of the `index`-th entry (counted from 0): `#N "term"`, N from 1.
pub open spec fn import_label_text(index: nat, term: Seq<char>) -> Seq<char> {
    "#"@ + decimal(index + 1) + " \""@ + term + "\""@
}

pub fn import_label(index: usize, term: &str) -> (s: String)
    requires
        index < u64::MAX,
    ensures
        s@ == import_label_text(index as nat, term@),
{
    let mut s = owned("#");
    s.append(decimal_string(index as u64 + 1).as_str());
    s.append(" \"");
    s.append(term);
    s.append("\"");
    s
}

/// What becomes of one imported entry.
#[derive(Clone, Debug)]
pub enum ImportStep {
    /// Store this word; `label` names the entry in later warnings.
    Insert { word: Word, label: String },
    /// Skip the entry with this warning.
    Skip { warning: String },
}

/// The warning for an entry missing a required field.
pub open spec fn missing_field_warning(label: Seq<char>, field: Seq<char>) -> Seq<char> {
    label + ": pominięto — brak pola `"@ + field + "`"@
}

pub open spec fn import_step_of(s: ImportStep, index: nat, item: ImportedWord, batch_date: i64) -> bool {
    let label = import_label_text(index, item.term@);
    if trimmed(item.term@).len() == 0 {
        s matches ImportStep::Skip { warning } && warning@ == missing_field_warning(label, "term"@)
    } else if trimmed(item.definition@).len() == 0 {
        s matches ImportStep::Skip { warning } && warning@ == missing_field_warning(label, "definition"@)
    } else {
        &&& s matches ImportStep::Insert { word, label: l }
        &&& l@ == label
        &&& word.id == 0
        &&& word.term@ == trimmed(item.term@)
        &&& word.definition@ == trimmed(item.definition@)
        &&& word.definition_pl == item.definition_pl
        &&& word.part_of_speech@ == match item.part_of_speech {
            Some(p) => p@,
            None => "noun"@,
        }
        &&& word.phonetic == item.phonetic
        &&& word.examples == item.examples
        &&& word.synonyms == item.synonyms
        &&& word.antonyms == item.antonyms
        &&& word.tags == item.tags
        &&& word.difficulty == match item.difficulty {
            Some(d) => clamp_difficulty(d as int),
            None => 2,
        }
        &&& word.created_at == batch_date
        &&& word.is_active
        &&& word.sentence_pl == item.sentence_pl
        &&& word.sentence_en == item.sentence_en
        &&& word.category == item.category
    }
}

/// Validates the `index`-th imported entry (counted from 0): term and
/// definition are trimmed and must not be empty; the part of speech defaults
/// to "noun", the difficulty to 2 (else kept within 1..=5); every word of the
/// batch is stamped `batch_date`.
pub fn prepare_import(index: usize, item: ImportedWord, batch_date: i64) -> (s: ImportStep)
    requires
        index < u64::MAX,
    ensures
        import_step_of(s, index as nat, item, batch_date),
{
    let label = import_label(index, item.term.as_str());
    let term = trim_str(item.term.as_str());
    let definition = trim_str(item.definition.as_str());
    if term.as_str().unicode_len() == 0 {
        let mut warning = label;
        warning.append(": pominięto — brak pola `");
        warning.append("term");
        warning.append("`");
        return ImportStep::Skip { warning };
    }
    if definition.as_str().unicode_len() == 0 {
        let mut warning = label;
        warning.append(": pominięto — brak pola `");
        warning.append("definition");
        warning.append("`");
        return ImportStep::Skip { warning };
    }
    let difficulty = match item.difficulty {
        Some(d) => clamp_difficulty_exec(d),
        None => 2,
    };
    let part_of_speech = match item.part_of_speech {
        Some(p) => p,
        None => owned("noun"),
    };
    let word = Word {
        id: 0,
        term,
        definition,
        definition_pl: item.definition_pl,
        part_of_speech,
        phonetic: item.phonetic,
        examples: item.examples,
        synonyms: item.synonyms,
        antonyms: item.antonyms,
        tags: item.tags,
        difficulty,
        created_at: batch_date,
        is_active: true,
        sentence_pl: item.sentence_pl,
        sentence_en: item.sentence_en,
        category: item.category,
    };
    ImportStep::Insert { word, label }
}

/// The warning for an entry the store refused: a duplicate when the store's
/// message mentions a UNIQUE constraint, otherwise the message itself.
pub open spec fn insert_failure_text(label: Seq<char>, message: Seq<char>) -> Seq<char> {
    if has_substring(message, "UNIQUE"@) || has_substring(message, "unique"@) {
        label + ": pominięto — duplikat (słowo już istnieje)"@
    } else {
        label + ": błąd zapisu — "@ + message
    }
}

pub fn insert_failure_warning(label: &str, message: &str) -> (s: String)
    ensures
        s@ == insert_failure_text(label@, message@),
{
    if contains_str(message, "UNIQUE") || contains_str(message, "unique") {
        let mut s = owned(label);
        s.append(": pominięto — duplikat (słowo już istnieje)");
        s
    } else {
        concat3(label, ": błąd zapisu — ", message)
    }
}


/// An entry is skipped exactly when its trimmed term or trimmed definition is
/// empty. An accepted entry becomes an active, not yet stored word stamped
/// with the batch date, whose term and definition are the trimmed ones and
/// which keeps every optional field the entry carries.
pub proof fn lemma_import_keeps_entry(s: ImportStep, index: nat, item: ImportedWord, batch_date: i64)
    requires
        import_step_of(s, index, item, batch_date),
    ensures
        (s is Skip) <==> (trimmed(item.term@).len() == 0 || trimmed(item.definition@).len() == 0),
        s matches ImportStep::Insert { word, label } ==> {
            &&& word.id == 0
            &&& word.is_active
            &&& word.created_at == batch_date
            &&& word.term@ == trimmed(item.term@)
            &&& word.definition@ == trimmed(item.definition@)
            &&& item.definition_pl == word.definition_pl
            &&& word.phonetic == item.phonetic
            &&& word.examples == item.examples
            &&& word.synonyms == item.synonyms
            &&& word.antonyms == item.antonyms
            &&& word.tags == item.tags
            &&& word.sentence_pl == item.sentence_pl
            &&& word.sentence_en == item.sentence_en
            &&& word.category == item.category
            &&& (item.part_of_speech matches Some(ps) ==> word.part_of_speech@ == ps@)
            &&& (item.part_of_speech is None ==> word.part_of_speech@ == "noun"@)
            &&& (item.difficulty matches Some(d) ==> 1 <= word.difficulty <= 5 && (1 <= d <= 5 ==> word.difficulty
                == d) && (d < 1 ==> word.difficulty == 1) && (d > 5 ==> word.difficulty == 5))
            &&& (item.difficulty is None ==> word.difficulty == 2)
            &&& label@ == "#"@ + decimal(index + 1) + " \""@ + item.term@ + "\""@
        },
{
}

} // verus!
