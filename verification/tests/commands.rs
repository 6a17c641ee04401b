use vocab_trainer::commands::{
    build_srs_overview, build_srs_result, flashcard_front, flashcard_grade_fits,
    process_flashcard_grade_at, flashcard_result, format_interval_pl,
    global_categories, grade_for_decision, import_label, insert_failure_warning, new_word,
    prepare_import, reclassify_payload, review_status, scheduler_config_from, AppSettings,
    ImportResult, ImportStep, ImportedWord, SrsGrade,
};
use vocab_trainer::db::{ExerciseType, MasteryLevel, Word, WordProgress};
use vocab_trainer::learning::AnswerResult;

fn word(id: i64, term: &str) -> Word {
    Word {
        id,
        term: term.to_string(),
        definition: "a definition that is longer than sixty characters, so that it is cut short".to_string(),
        definition_pl: None,
        part_of_speech: "noun".to_string(),
        phonetic: Some("/x/".to_string()),
        examples: vec![],
        synonyms: vec![],
        antonyms: vec![],
        tags: vec!["t".to_string()],
        difficulty: 2,
        created_at: 0,
        is_active: true,
        sentence_pl: Some("zdanie".to_string()),
        sentence_en: Some("sentence".to_string()),
        category: None,
    }
}

#[test]
fn grades() {
    assert_eq!(SrsGrade::Again.to_quality(), 1);
    assert_eq!(SrsGrade::Hard.to_quality(), 3);
    assert_eq!(SrsGrade::Good.to_quality(), 4);
    assert_eq!(SrsGrade::Easy.to_quality(), 5);
    assert_eq!(SrsGrade::Hard.as_str(), "hard");
    assert!(!SrsGrade::Again.was_correct());
    assert!(SrsGrade::Hard.was_correct());
    assert_eq!(grade_for_decision("known"), SrsGrade::Good);
    assert_eq!(grade_for_decision("practice"), SrsGrade::Again);
}

#[test]
fn interval_labels() {
    assert_eq!(format_interval_pl(0), "teraz");
    assert_eq!(format_interval_pl(-300), "teraz");
    assert_eq!(format_interval_pl(1), "za 14 minut");
    assert_eq!(format_interval_pl(4), "za 58 minut");
    assert_eq!(format_interval_pl(5), "za 1 h");
    assert_eq!(format_interval_pl(50), "za 12 h");
    assert_eq!(format_interval_pl(100), "jutro");
    assert_eq!(format_interval_pl(199), "jutro");
    assert_eq!(format_interval_pl(200), "za 2 dni");
    assert_eq!(format_interval_pl(600), "za 6 dni");
}

#[test]
fn categories_and_reclassify() {
    let cats = global_categories();
    assert_eq!(cats.len(), 28);
    assert_eq!(cats[0], "IT");
    assert_eq!(cats[27], "bez kategorii");
    let mut a = word(1, "a");
    a.category = Some("IT".to_string());
    let b = word(2, "b");
    let mut c = word(3, "c");
    c.category = Some("bez kategorii".to_string());
    let p = reclassify_payload(vec![a, b, c]);
    assert_eq!(p.words.iter().map(|w| w.id).collect::<Vec<_>>(), vec![2, 3]);
    assert_eq!(p.categories.len(), 28);
}

#[test]
fn settings_to_config() {
    let s = AppSettings::default();
    assert_eq!(s.work_hours_start, "08:00");
    let c = scheduler_config_from(&s);
    assert_eq!(c.min_popup_gap_secs, 1800);
    assert_eq!(c.max_daily_exercises, 50);
    assert_eq!(c.work_hours_start, 480);
    assert_eq!(c.work_hours_end, 1320);
    assert_eq!(c.poll_interval_secs, 10);
}

#[test]
fn flashcard_texts_and_results() {
    let mut w = word(4, "zeal");
    assert_eq!(flashcard_front(&w), "a definition that is longer than sixty characters, so that i");
    w.definition_pl = Some("zapał".to_string());
    assert_eq!(flashcard_front(&w), "zapał");
    let answer = AnswerResult {
        quality: 5,
        was_correct: true,
        new_interval_centidays: 600,
        new_easiness_hundredths: 260,
        mastery_level: "learning".to_string(),
        next_review_at: 123,
        streak: 2,
        word: word(1, "a"),
    };
    let r = build_srs_result(1, SrsGrade::Good, answer.clone(), Some(w));
    assert_eq!(r.grade, "good");
    assert_eq!(r.next_review_label, "za 6 dni");
    assert_eq!(r.next_word_id, Some(4));
    assert_eq!(r.next_term_pl.as_deref(), Some("zapał"));
    assert_eq!(r.next_term_en.as_deref(), Some("zeal"));
    assert_eq!(r.next_sentence_pl.as_deref(), Some("zdanie"));
    let f = flashcard_result("known".to_string(), r);
    assert_eq!(f.decision, "known");
    assert_eq!(f.next_word_id, Some(4));
    let none = build_srs_result(1, SrsGrade::Again, answer, None);
    assert!(none.next_word_id.is_none() && none.next_term_pl.is_none());
}

#[test]
fn overview_rows_and_counts() {
    let day = 86_400_000i64;
    let now = 10 * day + 1_000;
    let mut never = WordProgress::fresh(1, 1, 0);
    never.mastery_level = MasteryLevel::New;
    let mut overdue = WordProgress::fresh(2, 2, now - 5);
    overdue.total_reviews = 3;
    overdue.mastery_level = MasteryLevel::Learning;
    let mut today = WordProgress::fresh(3, 3, now + 1_000);
    today.total_reviews = 1;
    today.mastery_level = MasteryLevel::Reviewing;
    let mut future = WordProgress::fresh(4, 4, 12 * day);
    future.total_reviews = 9;
    future.mastery_level = MasteryLevel::Mastered;
    assert_eq!(review_status(&never, now), "never");
    assert_eq!(review_status(&overdue, now), "overdue");
    assert_eq!(review_status(&today, now), "today");
    assert_eq!(review_status(&future, now), "future");
    let pairs = vec![(word(1, "a"), never), (word(2, "b"), overdue), (word(3, "c"), today), (word(4, "d"), future)];
    let o = build_srs_overview(&pairs, now);
    assert_eq!(o.words.len(), 4);
    assert_eq!(o.words[1].review_status, "overdue");
    assert_eq!(o.words[3].mastery_level, "mastered");
    assert_eq!(o.words[0].next_review_at, Some(0));
    assert_eq!(o.words[0].tags, vec!["t"]);
    assert_eq!(o.today.due_today, 2);
    assert_eq!((o.today.new_words, o.today.learning, o.today.reviewing, o.today.mastered), (1, 1, 1, 1));
    assert_eq!(o.today.total, 4);
}

#[test]
fn new_words_clamp_difficulty() {
    let w = new_word("t".into(), "d".into(), None, "verb".into(), None, vec![], vec![], vec![], vec![], 9, None, None, Some("IT".into()), 77);
    assert_eq!(w.difficulty, 5);
    assert_eq!(w.created_at, 77);
    assert!(w.is_active);
    assert_eq!(w.id, 0);
    let v = new_word("t".into(), "d".into(), None, "verb".into(), None, vec![], vec![], vec![], vec![], -3, None, None, None, 77);
    assert_eq!(v.difficulty, 1);
}

fn item(term: &str, definition: &str) -> ImportedWord {
    ImportedWord {
        term: term.to_string(),
        definition: definition.to_string(),
        definition_pl: None,
        part_of_speech: None,
        phonetic: None,
        examples: vec![],
        synonyms: vec![],
        antonyms: vec![],
        tags: vec![],
        difficulty: None,
        sentence_pl: Some("zdanie".to_string()),
        sentence_en: None,
        category: None,
        created_at: Some("2020-01-01".to_string()),
    }
}

#[test]
fn import_validation() {
    assert_eq!(import_label(0, "  x "), "#1 \"  x \"");
    match prepare_import(0, item("  zeal ", " energy "), 555) {
        ImportStep::Insert { word, label } => {
            assert_eq!(word.term, "zeal");
            assert_eq!(word.definition, "energy");
            assert_eq!(word.part_of_speech, "noun");
            assert_eq!(word.difficulty, 2);
            assert_eq!(word.created_at, 555);
            assert_eq!(word.sentence_pl.as_deref(), Some("zdanie"));
            assert_eq!(label, "#1 \"  zeal \"");
        }
        other => panic!("unexpected {:?}", other),
    }
    let mut hard = item("x", "y");
    hard.difficulty = Some(7);
    hard.part_of_speech = Some("verb".to_string());
    match prepare_import(4, hard, 1) {
        ImportStep::Insert { word, .. } => {
            assert_eq!(word.difficulty, 5);
            assert_eq!(word.part_of_speech, "verb");
        }
        other => panic!("unexpected {:?}", other),
    }
    match prepare_import(1, item("   ", "y"), 1) {
        ImportStep::Skip { warning } => assert_eq!(warning, "#2 \"   \": pominięto — brak pola `term`"),
        other => panic!("unexpected {:?}", other),
    }
    match prepare_import(2, item("a", ""), 1) {
        ImportStep::Skip { warning } => assert_eq!(warning, "#3 \"a\": pominięto — brak pola `definition`"),
        other => panic!("unexpected {:?}", other),
    }
    assert_eq!(
        insert_failure_warning("#1 \"a\"", "UNIQUE constraint failed: word.term"),
        "#1 \"a\": pominięto — duplikat (słowo już istnieje)"
    );
    assert_eq!(insert_failure_warning("#1 \"a\"", "disk full"), "#1 \"a\": błąd zapisu — disk full");
    let e = ImportResult::empty_file();
    assert_eq!(e.warnings, vec!["Plik JSON jest pusty."]);
    let mut r = ImportResult::new();
    r.record_added();
    r.record_skipped("w".to_string());
    assert_eq!((r.added, r.skipped, r.warnings.len()), (1, 1, 1));
}

#[test]
fn flashcard_grades_run_sm2_with_their_quality() {
    let now = 1_700_000_000_000;
    let cases = [
        (SrsGrade::Again, 1, false, 196),
        (SrsGrade::Hard, 3, true, 236),
        (SrsGrade::Good, 4, true, 250),
        (SrsGrade::Easy, 5, true, 260),
    ];
    for (grade, quality, correct, ef) in cases {
        let w = word(7, "zeal");
        let p = WordProgress::fresh(1, 7, now);
        assert!(flashcard_grade_fits(&w, &p, grade, now));
        let out = process_flashcard_grade_at(w, p, grade, "sess", now);
        assert_eq!(out.history.quality, quality);
        assert_eq!(out.result.quality, quality);
        assert_eq!(out.history.was_correct, correct);
        assert_eq!(out.history.response_time_ms, 0);
        assert_eq!(out.history.user_answer, None);
        assert_eq!(out.history.exercise_type, ExerciseType::Introduction);
        assert_eq!(out.history.session_id, "sess");
        assert_eq!(out.progress.easiness_hundredths, ef);
        assert_eq!(out.progress.iterations, if correct { 1 } else { 0 });
    }
}
