use vocab_trainer::db::{ExerciseType, MasteryLevel, Word, WordProgress, DailyStats};
use vocab_trainer::learning::{
    activity_grid, answer_fits, begin_session, graded_answer_fits, new_session_id, process_answer_at,
    process_graded_answer_at, DifficultyAdjuster,
};

fn word(difficulty: i32) -> Word {
    Word {
        id: 11,
        term: "zeal".to_string(),
        definition: "great energy".to_string(),
        definition_pl: None,
        part_of_speech: "noun".to_string(),
        phonetic: None,
        examples: vec![],
        synonyms: vec![],
        antonyms: vec![],
        tags: vec![],
        difficulty,
        created_at: 0,
        is_active: true,
        sentence_pl: None,
        sentence_en: None,
        category: None,
    }
}

#[test]
fn answering_updates_progress_history_and_result() {
    let now = 1_700_000_000_000;
    let p = WordProgress::fresh(3, 11, now);
    let w = word(2);
    assert!(answer_fits(&w, &p, true, 1_000, now));
    let out = process_answer_at(w, p, true, 1_000, Some("zeal".into()), ExerciseType::SpellingCheck, "s1", now);
    assert_eq!(out.history.quality, 5);
    assert_eq!(out.history.exercise_type, ExerciseType::SpellingCheck);
    assert_eq!(out.history.session_id, "s1");
    assert_eq!(out.history.completed_at, now);
    assert_eq!(out.progress.iterations, 1);
    assert_eq!(out.progress.interval_centidays, 100);
    assert_eq!(out.progress.easiness_hundredths, 260);
    assert_eq!(out.result.mastery_level, "learning");
    assert_eq!(out.result.next_review_at, now + 86_400_000);
    assert_eq!(out.result.streak, 1);
    assert_eq!(out.result.word.id, 11);

    let wrong = process_answer_at(word(2), out.progress.clone(), false, 9_000, None, ExerciseType::TrueFalse, "s1", now + 1);
    assert_eq!(wrong.result.quality, 0);
    assert_eq!(wrong.progress.streak, 0);
    assert_eq!(wrong.progress.mastery_level, MasteryLevel::Learning);
    let mut huge = WordProgress::fresh(3, 11, now);
    huge.total_reviews = i32::MAX;
    assert!(!answer_fits(&word(2), &huge, true, 1_000, now));
}

#[test]
fn sessions_start_fresh() {
    let mut p = WordProgress::fresh(3, 11, 0);
    p.session_reviews = 4;
    let q = begin_session(p, 1_000);
    assert_eq!(q.introduced_at, Some(1_000));
    assert_eq!(q.session_reviews, 0);
    assert_eq!(q.next_session_review_at, Some(1_000 + 15 * 60_000));
}

#[test]
fn difficulty_adjustment() {
    let mut p = WordProgress::fresh(1, 1, 0);
    p.total_reviews = 4;
    p.correct_reviews = 4;
    assert_eq!(DifficultyAdjuster::adjust(&word(3), &p), None);
    p.total_reviews = 10;
    p.correct_reviews = 10;
    assert_eq!(DifficultyAdjuster::adjust(&word(3), &p), Some(2));
    assert_eq!(DifficultyAdjuster::adjust(&word(1), &p), None);
    p.correct_reviews = 9; // exactly 90% is not above 90%
    assert_eq!(DifficultyAdjuster::adjust(&word(3), &p), None);
    p.correct_reviews = 4;
    assert_eq!(DifficultyAdjuster::adjust(&word(3), &p), Some(4));
    assert_eq!(DifficultyAdjuster::adjust(&word(5), &p), None);
    p.correct_reviews = 5; // exactly 50% is not below 50%
    assert_eq!(DifficultyAdjuster::adjust(&word(3), &p), None);
    assert_eq!(DifficultyAdjuster::label(1), "Beginner");
    assert_eq!(DifficultyAdjuster::label(4), "Advanced");
    assert_eq!(DifficultyAdjuster::label(0), "Unknown");
}

#[test]
fn grid_and_session_ids() {
    let stats = vec![DailyStats {
        date: "2024-05-01".into(),
        exercises_completed: 7,
        correct_answers: 5,
        words_reviewed: 3,
        words_mastered: 0,
        total_time_ms: 10,
        streak_days: 0,
    }];
    let g = activity_grid(stats);
    assert_eq!(g.len(), 1);
    assert_eq!((g[0].date.as_str(), g[0].count, g[0].correct), ("2024-05-01", 7, 5));
    let a = new_session_id();
    let b = new_session_id();
    assert_eq!(a.len(), 36);
    assert_ne!(a, b);
}

#[test]
fn session_id_is_hyphenated_v4_uuid() {
    let id = new_session_id();
    let chars: Vec<char> = id.chars().collect();
    assert_eq!(chars.len(), 36);
    for (i, c) in chars.iter().enumerate() {
        if i == 8 || i == 13 || i == 18 || i == 23 {
            assert_eq!(*c, '-');
        } else {
            assert!(c.is_ascii_hexdigit() && !c.is_ascii_uppercase());
        }
    }
    assert_eq!(chars[14], '4');
    assert!(matches!(chars[19], '8' | '9' | 'a' | 'b'));
}

#[test]
fn graded_answers_use_the_grade_quality() {
    let now = 1_700_000_000_000;
    let w = word(2);
    // "Hard" is quality 3: a pass whose easiness drops by 0.14
    let p = WordProgress::fresh(3, 11, now);
    assert!(graded_answer_fits(&w, &p, 3, now));
    let out = process_graded_answer_at(w.clone(), p, 3, true, 0, None, ExerciseType::Introduction, "s", now);
    assert_eq!(out.history.quality, 3);
    assert_eq!(out.result.quality, 3);
    assert!(out.result.was_correct);
    assert_eq!(out.progress.easiness_hundredths, 236);
    assert_eq!(out.progress.iterations, 1);
    assert_eq!(out.progress.next_review_at, now + 86_400_000);
    // "Again" is quality 1: a failure whose easiness drops by 0.54
    let p = WordProgress::fresh(3, 11, now);
    let out = process_graded_answer_at(w, p, 1, false, 0, None, ExerciseType::Introduction, "s", now);
    assert_eq!(out.history.quality, 1);
    assert_eq!(out.progress.easiness_hundredths, 196);
    assert_eq!(out.progress.iterations, 0);
    assert_eq!(out.progress.streak, 0);
}
