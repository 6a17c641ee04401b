use rand::SeedableRng;
use rand::rngs::SmallRng;
use vocab_trainer::db::{ExerciseType, MasteryLevel, Word, WordProgress};
use vocab_trainer::learning::exercise_generator::{build_hint, Exercise, ExerciseGenerator};

fn word(id: i64, term: &str, definition: &str) -> Word {
    Word {
        id,
        term: term.to_string(),
        definition: definition.to_string(),
        definition_pl: None,
        part_of_speech: "noun".to_string(),
        phonetic: Some("/fɔːtɪtjuːd/".to_string()),
        examples: vec![],
        synonyms: vec![],
        antonyms: vec![],
        tags: vec![],
        difficulty: 2,
        created_at: 0,
        is_active: true,
        sentence_pl: None,
        sentence_en: None,
        category: None,
    }
}

fn target() -> Word {
    let mut w = word(1, "fortitude", "courage in pain or adversity");
    w.examples = vec!["She showed great fortitude in the face of danger.".to_string()];
    w.synonyms = vec!["courage".to_string(), "bravery".to_string(), "grit".to_string(), "nerve".to_string()];
    w
}

fn distractors() -> Vec<Word> {
    vec![
        word(2, "lethargy", "lack of energy"),
        word(3, "bravery", "courageous behaviour"),
        word(4, "candor", "openness"),
        word(5, "zeal", "great energy"),
        word(6, "rancor", "bitterness"),
    ]
}

fn progress(level: MasteryLevel, total_reviews: i32) -> WordProgress {
    let mut p = WordProgress::fresh(7, 1, 0);
    p.mastery_level = level;
    p.total_reviews = total_reviews;
    p
}

#[test]
fn hint_hides_vowels() {
    assert_eq!(build_hint("fortitude"), "f_rt_t_d_");
    assert_eq!(build_hint("Apple"), "_ppl_");
    assert_eq!(build_hint("żółw"), "żółw");
}

#[test]
fn introduction_presents_the_word() {
    let mut rng = SmallRng::seed_from_u64(1);
    let w = target();
    match ExerciseGenerator::generate_typed(ExerciseType::Introduction, &w, &progress(MasteryLevel::New, 0), &distractors(), &mut rng) {
        Exercise::Introduction(x) => {
            assert_eq!(x.word_id, 1);
            assert_eq!(x.term, "fortitude");
            assert_eq!(x.example.as_deref(), Some("She showed great fortitude in the face of danger."));
            assert_eq!(x.synonyms, vec!["courage", "bravery", "grit"]);
            assert!(x.is_new_word);
        }
        other => panic!("unexpected {:?}", other),
    }
    match ExerciseGenerator::make_introduction(&w, &progress(MasteryLevel::Learning, 3)) {
        x => assert!(!x.is_new_word),
    }
}

#[test]
fn multiple_choice_has_one_correct_definition() {
    for seed in 0..20 {
        let mut rng = SmallRng::seed_from_u64(seed);
        let x = ExerciseGenerator::make_multiple_choice(&target(), &distractors(), &mut rng);
        assert_eq!(x.options.len(), 4);
        assert_eq!(x.question, "What does \"fortitude\" mean?");
        assert_eq!(x.hint.as_deref(), Some("noun"));
        assert!(x.options[x.correct_index].is_correct);
        assert_eq!(x.options[x.correct_index].text, "courage in pain or adversity");
        assert_eq!(x.options.iter().filter(|o| o.is_correct).count(), 1);
        let mut texts: Vec<&str> = x.options.iter().map(|o| o.text.as_str()).collect();
        texts.sort();
        assert_eq!(texts, vec!["courage in pain or adversity", "courageous behaviour", "lack of energy", "openness"]);
    }
}

#[test]
fn fill_in_blank_blanks_the_term() {
    let mut rng = SmallRng::seed_from_u64(3);
    let x = ExerciseGenerator::make_fill_in_blank(&target(), &distractors(), &mut rng);
    assert_eq!(x.sentence, "She showed great _____ in the face of danger.");
    assert_eq!(x.answer, "fortitude");
    assert_eq!(x.hint.as_deref(), Some("f_rt_t_d_"));
    let mut opts = x.options.clone();
    opts.sort();
    assert_eq!(opts, vec!["bravery", "candor", "fortitude", "lethargy"]);

    let plain = word(9, "zeal", "great energy");
    let y = ExerciseGenerator::make_fill_in_blank(&plain, &[], &mut rng);
    assert_eq!(y.sentence, "He demonstrated great _____ in his work.");
    assert_eq!(y.options, vec!["zeal"]);
}

#[test]
fn contextual_guess_uses_example_or_stock_sentence() {
    let mut rng = SmallRng::seed_from_u64(4);
    let x = ExerciseGenerator::make_contextual_guess(&target(), &distractors()[..1], &mut rng);
    assert_eq!(x.context_sentence, "She showed great fortitude in the face of danger.");
    assert_eq!(x.options.len(), 2);
    assert_eq!(x.options[x.correct_index].text, "courage in pain or adversity");
    let plain = word(9, "zeal", "great energy");
    let y = ExerciseGenerator::make_contextual_guess(&plain, &[], &mut rng);
    assert_eq!(y.context_sentence, "She showed remarkable zeal when faced with difficulty.");
    assert_eq!(y.correct_index, 0);
}

#[test]
fn spelling_and_recall() {
    let mut rng = SmallRng::seed_from_u64(5);
    let s = ExerciseGenerator::make_spelling_check(&target());
    assert_eq!(s.hint, "f_rt_t_d_");
    assert_eq!(s.answer, "fortitude");
    assert_eq!(s.definition, "courage in pain or adversity");
    let r = ExerciseGenerator::make_definition_recall(&target(), &distractors(), &mut rng);
    assert_eq!(r.options.len(), 4);
    assert_eq!(r.options[r.correct_index].text, "fortitude");
    assert_eq!(r.answer, "fortitude");
}

#[test]
fn synonym_match_marks_every_synonym() {
    for seed in 0..10 {
        let mut rng = SmallRng::seed_from_u64(seed);
        let x = ExerciseGenerator::make_synonym_match(&target(), &distractors(), &mut rng);
        assert_eq!(x.question, "Which word is a synonym of \"fortitude\"?");
        // two synonyms, four distractors; "bravery" is both a synonym and a distractor
        assert_eq!(x.options.len(), 6);
        let correct: Vec<usize> = (0..x.options.len()).filter(|&i| x.options[i].is_correct).collect();
        assert_eq!(x.correct_indices, correct);
        assert_eq!(correct.len(), 3);
    }
}

#[test]
fn true_false_explains_both_ways() {
    let mut seen = (false, false);
    for seed in 0..40 {
        let mut rng = SmallRng::seed_from_u64(seed);
        let x = ExerciseGenerator::make_true_false(&target(), &distractors(), &mut rng);
        if x.is_correct_definition {
            seen.0 = true;
            assert_eq!(x.shown_definition, "courage in pain or adversity");
            assert_eq!(x.explanation, "✓ Correct! \"fortitude\" means: courage in pain or adversity");
        } else {
            seen.1 = true;
            assert_eq!(x.shown_definition, "lack of energy");
            assert_eq!(x.explanation, "✗ Wrong! \"fortitude\" actually means: courage in pain or adversity");
        }
        let y = ExerciseGenerator::make_true_false(&target(), &[], &mut rng);
        if !y.is_correct_definition {
            assert_eq!(y.shown_definition, "the opposite of what it seems");
        }
    }
    assert!(seen.0 && seen.1);
}

#[test]
fn kinds_follow_mastery() {
    let allowed = |m: MasteryLevel| -> Vec<ExerciseType> {
        match m {
            MasteryLevel::New => vec![ExerciseType::Introduction],
            MasteryLevel::Learning => vec![ExerciseType::MultipleChoice, ExerciseType::TrueFalse, ExerciseType::FillInBlank, ExerciseType::ContextualGuess],
            MasteryLevel::Reviewing => vec![ExerciseType::MultipleChoice, ExerciseType::FillInBlank, ExerciseType::ContextualGuess, ExerciseType::SynonymMatch, ExerciseType::DefinitionRecall],
            MasteryLevel::Mastered => vec![ExerciseType::SpellingCheck, ExerciseType::DefinitionRecall, ExerciseType::SynonymMatch, ExerciseType::ContextualGuess],
        }
    };
    for level in [MasteryLevel::New, MasteryLevel::Learning, MasteryLevel::Reviewing, MasteryLevel::Mastered] {
        for seed in 0..30 {
            let mut rng = SmallRng::seed_from_u64(seed);
            let e = ExerciseGenerator::generate(&target(), &progress(level, 1), &distractors(), &mut rng);
            assert!(allowed(level).contains(&e.exercise_type()), "{:?} {:?}", level, e.exercise_type());
            assert_eq!(e.word_id(), 1);
        }
    }
}
