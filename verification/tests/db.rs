use vocab_trainer::db::{
    calculate_streak, excluded_word_id, format_day, overall_stats, parse_day, ExerciseType,
    MasteryLevel, WordProgress,
};

#[test]
fn names_round_trip() {
    for m in [MasteryLevel::New, MasteryLevel::Learning, MasteryLevel::Reviewing, MasteryLevel::Mastered] {
        assert_eq!(MasteryLevel::from_str(m.as_str()), m);
    }
    assert_eq!(MasteryLevel::from_str("garbage"), MasteryLevel::New);
    assert_eq!(MasteryLevel::Reviewing.as_str(), "reviewing");
    let kinds = [
        ExerciseType::Introduction,
        ExerciseType::MultipleChoice,
        ExerciseType::FillInBlank,
        ExerciseType::ContextualGuess,
        ExerciseType::SpellingCheck,
        ExerciseType::SynonymMatch,
        ExerciseType::DefinitionRecall,
        ExerciseType::TrueFalse,
    ];
    for k in kinds {
        assert_eq!(ExerciseType::from_str(k.as_str()), k);
    }
    assert_eq!(ExerciseType::from_str("whatever"), ExerciseType::TrueFalse);
    assert_eq!(ExerciseType::FillInBlank.as_str(), "fill_in_blank");
}

#[test]
fn fresh_progress_row() {
    let p = WordProgress::fresh(4, 9, 1234);
    assert_eq!((p.id, p.word_id), (4, 9));
    assert_eq!(p.easiness_hundredths, 250);
    assert_eq!(p.interval_centidays, 0);
    assert_eq!(p.next_review_at, 1234);
    assert_eq!(p.mastery_level, MasteryLevel::New);
}

#[test]
fn streak_counts_consecutive_days() {
    let days = |v: &[&str]| v.iter().map(|s| s.to_string()).collect::<Vec<_>>();
    assert_eq!(calculate_streak(&days(&["2024-03-01", "2024-02-29", "2024-02-28", "2024-02-26"]), "2024-03-01"), 3);
    assert_eq!(calculate_streak(&days(&["2024-02-29"]), "2024-03-01"), 0);
    assert_eq!(calculate_streak(&days(&[]), "2024-03-01"), 0);
    assert_eq!(calculate_streak(&days(&["2025-01-01", "2024-12-31"]), "2025-01-01"), 2);
    assert_eq!(parse_day("2024-13-01"), None);
    let n = parse_day("2024-03-01").unwrap();
    assert_eq!(format_day(n - 1).as_deref(), Some("2024-02-29"));
}

#[test]
fn overall_totals() {
    let s = overall_stats(10, 2, 8, 6, 3);
    assert_eq!(s.accuracy_percent, 75);
    assert_eq!(overall_stats(1, 0, 0, 0, 0).accuracy_percent, 0);
    assert_eq!(overall_stats(1, 0, 3, 1, 0).accuracy_percent, 33);
    assert_eq!(excluded_word_id(None), -1);
    assert_eq!(excluded_word_id(Some(7)), 7);
}
