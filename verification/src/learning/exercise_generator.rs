//! Exercise payloads and their generation. Every exercise is meant to be
//! answered in under ten seconds.
use vstd::prelude::*;
use crate::db::{ExerciseType, MasteryLevel, Word, WordProgress};
use crate::random::{choose_exercise_type, coin_flip, shuffle_vec};
use crate::text::{chars_of, concat3, concat4, owned, replace_all, replace_str, string_from_chars};

verus! {

broadcast use vstd::seq_lib::group_to_multiset_ensures;

// ─── Payloads ────────────────────────────────────────────────────────────────

/// One answer option.
#[derive(Clone, Debug)]
pub struct McOption {
    pub text: String,
    pub is_correct: bool,
}

/// Full presentation of a word.
#[derive(Clone, Debug)]
pub struct IntroductionExercise {
    pub word_id: i64,
    pub term: String,
    pub phonetic: Option<String>,
    pub part_of_speech: String,
    pub definition: String,
    pub example: Option<String>,
    pub synonyms: Vec<String>,
    pub is_new_word: bool,
}

/// "Which definition matches TERM?" with four options.
#[derive(Clone, Debug)]
pub struct MultipleChoiceExercise {
    pub word_id: i64,
    pub term: String,
    pub question: String,
    pub options: Vec<McOption>,
    pub correct_index: usize,
    pub hint: Option<String>,
}

/// An example sentence with the term blanked out.
#[derive(Clone, Debug)]
pub struct FillInBlankExercise {
    pub word_id: i64,
    pub sentence: String,
    pub answer: String,
    pub hint: Option<String>,
    pub options: Vec<String>,
}

/// A sentence using the word; pick its meaning.
#[derive(Clone, Debug)]
pub struct ContextualGuessExercise {
    pub word_id: i64,
    pub term: String,
    pub context_sentence: String,
    pub options: Vec<McOption>,
    pub correct_index: usize,
}

/// Type the word from its definition.
#[derive(Clone, Debug)]
pub struct SpellingCheckExercise {
    pub word_id: i64,
    pub definition: String,
    pub answer: String,
    pub phonetic: Option<String>,
    pub hint: String,
}

/// Pick the synonyms of the term.
#[derive(Clone, Debug)]
pub struct SynonymMatchExercise {
    pub word_id: i64,
    pub term: String,
    pub options: Vec<McOption>,
    pub correct_indices: Vec<usize>,
    pub question: String,
}

/// Definition shown; recognise the term.
#[derive(Clone, Debug)]
pub struct DefinitionRecallExercise {
    pub word_id: i64,
    pub definition: String,
    pub part_of_speech: String,
    pub answer: String,
    pub options: Vec<McOption>,
    pub correct_index: usize,
}

/// "Does this definition match this word?"
#[derive(Clone, Debug)]
pub struct TrueFalseExercise {
    pub word_id: i64,
    pub term: String,
    pub shown_definition: String,
    pub is_correct_definition: bool,
    pub explanation: String,
}

#[derive(Clone, Debug)]
pub enum Exercise {
    Introduction(IntroductionExercise),
    MultipleChoice(MultipleChoiceExercise),
    FillInBlank(FillInBlankExercise),
    ContextualGuess(ContextualGuessExercise),
    SpellingCheck(SpellingCheckExercise),
    SynonymMatch(SynonymMatchExercise),
    DefinitionRecall(DefinitionRecallExercise),
    TrueFalse(TrueFalseExercise),
}

pub open spec fn kind_of(e: Exercise) -> ExerciseType {
    match e {
        Exercise::Introduction(_) => ExerciseType::Introduction,
        Exercise::MultipleChoice(_) => ExerciseType::MultipleChoice,
        Exercise::FillInBlank(_) => ExerciseType::FillInBlank,
        Exercise::ContextualGuess(_) => ExerciseType::ContextualGuess,
        Exercise::SpellingCheck(_) => ExerciseType::SpellingCheck,
        Exercise::SynonymMatch(_) => ExerciseType::SynonymMatch,
        Exercise::DefinitionRecall(_) => ExerciseType::DefinitionRecall,
        Exercise::TrueFalse(_) => ExerciseType::TrueFalse,
    }
}

pub open spec fn word_id_of(e: Exercise) -> i64 {
    match e {
        Exercise::Introduction(x) => x.word_id,
        Exercise::MultipleChoice(x) => x.word_id,
        Exercise::FillInBlank(x) => x.word_id,
        Exercise::ContextualGuess(x) => x.word_id,
        Exercise::SpellingCheck(x) => x.word_id,
        Exercise::SynonymMatch(x) => x.word_id,
        Exercise::DefinitionRecall(x) => x.word_id,
        Exercise::TrueFalse(x) => x.word_id,
    }
}

impl Exercise {
    pub fn exercise_type(&self) -> (t: ExerciseType)
        ensures
            t == kind_of(*self),
    {
        match self {
            Exercise::Introduction(_) => ExerciseType::Introduction,
            Exercise::MultipleChoice(_) => ExerciseType::MultipleChoice,
            Exercise::FillInBlank(_) => ExerciseType::FillInBlank,
            Exercise::ContextualGuess(_) => ExerciseType::ContextualGuess,
            Exercise::SpellingCheck(_) => ExerciseType::SpellingCheck,
            Exercise::SynonymMatch(_) => ExerciseType::SynonymMatch,
            Exercise::DefinitionRecall(_) => ExerciseType::DefinitionRecall,
            Exercise::TrueFalse(_) => ExerciseType::TrueFalse,
        }
    }

    pub fn word_id(&self) -> (id: i64)
        ensures
            id == word_id_of(*self),
    {
        match self {
            Exercise::Introduction(e) => e.word_id,
            Exercise::MultipleChoice(e) => e.word_id,
            Exercise::FillInBlank(e) => e.word_id,
            Exercise::ContextualGuess(e) => e.word_id,
            Exercise::SpellingCheck(e) => e.word_id,
            Exercise::SynonymMatch(e) => e.word_id,
            Exercise::DefinitionRecall(e) => e.word_id,
            Exercise::TrueFalse(e) => e.word_id,
        }
    }
}

// ─── Specification of the builders ──────────────────────────────────────────

/// The first `n` elements of `s` (all when shorter), like `iter().take(n)`.
pub open spec fn first_n<A>(s: Seq<A>, n: nat) -> Seq<A> {
    if s.len() <= n {
        s
    } else {
        s.take(n as int)
    }
}

/// The first element, if any.
pub open spec fn first_of<A>(s: Seq<A>) -> Option<A> {
    if s.len() > 0 {
        Some(s[0])
    } else {
        None
    }
}

pub open spec fn is_vowel_lower(c: char) -> bool {
    c == 'a' || c == 'e' || c == 'i' || c == 'o' || c == 'u'
}

/// `char::to_ascii_lowercase`.
pub open spec fn ascii_lower(c: char) -> char {
    if 'A' <= c && c <= 'Z' {
        ((c as u8) + 32) as char
    } else {
        c
    }
}

/// A hint character: vowels (either case) hidden.
pub open spec fn hint_char(c: char) -> char {
    if is_vowel_lower(ascii_lower(c)) {
        '_'
    } else {
        c
    }
}

/// The hint for a term: every character kept except the vowels, which become `_`.
pub open spec fn hint_of(term: Seq<char>) -> Seq<char> {
    term.map_values(|c: char| hint_char(c))
}

/// Option text: a distractor's definition, marked wrong.
pub open spec fn wrong_definition(d: Word) -> McOption {
    McOption { text: d.definition, is_correct: false }
}

/// Option text: a distractor's term, marked wrong.
pub open spec fn wrong_term(d: Word) -> McOption {
    McOption { text: d.term, is_correct: false }
}

/// The word's definition first, then the definitions of up to three distractors.
pub open spec fn definition_options(w: Word, ds: Seq<Word>) -> Seq<McOption> {
    seq![McOption { text: w.definition, is_correct: true }] + first_n(ds, 3).map_values(
        |d: Word| wrong_definition(d),
    )
}

/// The word's term first, then the terms of up to three distractors.
pub open spec fn term_options(w: Word, ds: Seq<Word>) -> Seq<McOption> {
    seq![McOption { text: w.term, is_correct: true }] + first_n(ds, 3).map_values(
        |d: Word| wrong_term(d),
    )
}

/// Some string of `list` reads as `t`.
pub open spec fn lists_text(list: Seq<String>, t: Seq<char>) -> bool {
    exists|i: int| 0 <= i < list.len() && list[i]@ == t
}

/// Up to two synonyms (correct), then up to four distractor terms, correct
/// exactly when the term reads as one of the word's synonyms.
pub open spec fn synonym_options(w: Word, ds: Seq<Word>) -> Seq<McOption> {
    first_n(w.synonyms@, 2).map_values(|s: String| McOption { text: s, is_correct: true }) + first_n(
        ds,
        4,
    ).map_values(|d: Word| McOption { text: d.term, is_correct: lists_text(w.synonyms@, d.term@) })
}

/// `i` is the first index of a correct option, or 0 when none is correct.
pub open spec fn is_first_correct(opts: Seq<McOption>, i: int) -> bool {
    if exists|j: int| 0 <= j < opts.len() && opts[j].is_correct {
        &&& 0 <= i < opts.len()
        &&& opts[i].is_correct
        &&& forall|j: int| 0 <= j < i ==> !opts[j].is_correct
    } else {
        i == 0
    }
}

/// `ix` lists, in increasing order, exactly the indices of the correct options.
pub open spec fn are_correct_indices(opts: Seq<McOption>, ix: Seq<usize>) -> bool {
    &&& forall|k: int| 0 <= k < ix.len() ==> ix[k] < opts.len() && opts[ix[k] as int].is_correct
    &&& forall|k1: int, k2: int| 0 <= k1 < k2 < ix.len() ==> ix[k1] < ix[k2]
    &&& forall|j: int| 0 <= j < opts.len() && opts[j].is_correct ==> ix.contains(j as usize)
}

pub open spec fn introduction_built(x: IntroductionExercise, w: Word, p: WordProgress) -> bool {
    &&& x.word_id == w.id
    &&& x.term == w.term
    &&& x.phonetic == w.phonetic
    &&& x.part_of_speech == w.part_of_speech
    &&& x.definition == w.definition
    &&& x.example == first_of(w.examples@)
    &&& x.synonyms@ == first_n(w.synonyms@, 3)
    &&& x.is_new_word == (p.total_reviews == 0)
}

pub open spec fn multiple_choice_built(x: MultipleChoiceExercise, w: Word, ds: Seq<Word>) -> bool {
    &&& x.word_id == w.id
    &&& x.term == w.term
    &&& x.question@ == "What does \""@ + w.term@ + "\" mean?"@
    &&& x.options@.to_multiset() == definition_options(w, ds).to_multiset()
    &&& is_first_correct(x.options@, x.correct_index as int)
    &&& x.hint == Some(w.part_of_speech)
}

/// The sentence a blank is cut from: the first example, or a stock sentence.
pub open spec fn blank_source(w: Word) -> Seq<char> {
    if w.examples@.len() > 0 {
        w.examples@[0]@
    } else {
        "He demonstrated great "@ + w.term@ + " in his work."@
    }
}

pub open spec fn fill_in_blank_built(x: FillInBlankExercise, w: Word, ds: Seq<Word>) -> bool {
    &&& x.word_id == w.id
    &&& x.sentence@ == replace_all(blank_source(w), w.term@, "_____"@)
    &&& x.answer == w.term
    &&& x.hint matches Some(h) && h@ == hint_of(w.term@)
    &&& x.options@.to_multiset() == (seq![w.term] + first_n(ds, 3).map_values(|d: Word| d.term)).to_multiset()
}

/// The sentence shown for guessing from context.
pub open spec fn context_source(w: Word) -> Seq<char> {
    if w.examples@.len() > 0 {
        w.examples@[0]@
    } else {
        "She showed remarkable "@ + w.term@ + " when faced with difficulty."@
    }
}

pub open spec fn contextual_guess_built(x: ContextualGuessExercise, w: Word, ds: Seq<Word>) -> bool {
    &&& x.word_id == w.id
    &&& x.term == w.term
    &&& x.context_sentence@ == context_source(w)
    &&& x.options@.to_multiset() == definition_options(w, ds).to_multiset()
    &&& is_first_correct(x.options@, x.correct_index as int)
}

pub open spec fn spelling_check_built(x: SpellingCheckExercise, w: Word) -> bool {
    &&& x.word_id == w.id
    &&& x.definition == w.definition
    &&& x.answer == w.term
    &&& x.phonetic == w.phonetic
    &&& x.hint@ == hint_of(w.term@)
}

pub open spec fn synonym_match_built(x: SynonymMatchExercise, w: Word, ds: Seq<Word>) -> bool {
    &&& x.word_id == w.id
    &&& x.term == w.term
    &&& x.options@.to_multiset() == synonym_options(w, ds).to_multiset()
    &&& are_correct_indices(x.options@, x.correct_indices@)
    &&& x.question@ == "Which word is a synonym of \""@ + w.term@ + "\"?"@
}

pub open spec fn definition_recall_built(x: DefinitionRecallExercise, w: Word, ds: Seq<Word>) -> bool {
    &&& x.word_id == w.id
    &&& x.definition == w.definition
    &&& x.part_of_speech == w.part_of_speech
    &&& x.answer == w.term
    &&& x.options@.to_multiset() == term_options(w, ds).to_multiset()
    &&& is_first_correct(x.options@, x.correct_index as int)
}

pub open spec fn true_false_built(x: TrueFalseExercise, w: Word, ds: Seq<Word>) -> bool {
    &&& x.word_id == w.id
    &&& x.term == w.term
    &&& if x.is_correct_definition {
        &&& x.shown_definition == w.definition
        &&& x.explanation@ == "✓ Correct! \""@ + w.term@ + "\" means: "@ + w.definition@
    } else {
        &&& x.shown_definition@ == (if ds.len() > 0 {
            ds[0].definition@
        } else {
            "the opposite of what it seems"@
        })
        &&& x.explanation@ == "✗ Wrong! \""@ + w.term@ + "\" actually means: "@ + w.definition@
    }
}

/// `e` is an exercise of kind `t` built for word `w` with progress `p` and
/// distractors `ds`.
pub open spec fn exercise_built(e: Exercise, t: ExerciseType, w: Word, p: WordProgress, ds: Seq<Word>) -> bool {
    &&& kind_of(e) == t
    &&& match e {
        Exercise::Introduction(x) => introduction_built(x, w, p),
        Exercise::MultipleChoice(x) => multiple_choice_built(x, w, ds),
        Exercise::FillInBlank(x) => fill_in_blank_built(x, w, ds),
        Exercise::ContextualGuess(x) => contextual_guess_built(x, w, ds),
        Exercise::SpellingCheck(x) => spelling_check_built(x, w),
        Exercise::SynonymMatch(x) => synonym_match_built(x, w, ds),
        Exercise::DefinitionRecall(x) => definition_recall_built(x, w, ds),
        Exercise::TrueFalse(x) => true_false_built(x, w, ds),
    }
}

/// The exercise kinds offered at each mastery level: new words are
/// introduced, learning words get supportive exercises, mastered words the
/// hardest recall exercises.
pub open spec fn offered_types(m: MasteryLevel) -> Seq<ExerciseType> {
    match m {
        MasteryLevel::New => seq![ExerciseType::Introduction],
        MasteryLevel::Learning => seq![
            ExerciseType::MultipleChoice,
            ExerciseType::TrueFalse,
            ExerciseType::FillInBlank,
            ExerciseType::ContextualGuess,
        ],
        MasteryLevel::Reviewing => seq![
            ExerciseType::MultipleChoice,
            ExerciseType::FillInBlank,
            ExerciseType::ContextualGuess,
            ExerciseType::SynonymMatch,
            ExerciseType::DefinitionRecall,
        ],
        MasteryLevel::Mastered => seq![
            ExerciseType::SpellingCheck,
            ExerciseType::DefinitionRecall,
            ExerciseType::SynonymMatch,
            ExerciseType::ContextualGuess,
        ],
    }
}

// ─── Helpers ─────────────────────────────────────────────────────────────────

fn hint_char_exec(c: char) -> (h: char)
    ensures
        h == hint_char(c),
{
    let lower = if 'A' <= c && c <= 'Z' {
        ((c as u8) + 32) as char
    } else {
        c
    };
    if lower == 'a' || lower == 'e' || lower == 'i' || lower == 'o' || lower == 'u' {
        '_'
    } else {
        c
    }
}

/// The term with its vowels hidden: "fortitude" gives "f_rt_t_d_".
pub fn build_hint(term: &str) -> (h: String)
    ensures
        h@ == hint_of(term@),
{
    let cs = chars_of(term);
    let mut out: Vec<char> = Vec::new();
    let mut i: usize = 0;
    while i < cs.len()
        invariant
            cs@ == term@,
            i <= cs.len(),
            out@ == cs@.take(i as int).map_values(|c: char| hint_char(c)),
        decreases cs.len() - i,
    {
        out.push(hint_char_exec(cs[i]));
        i = i + 1;
        assert(out@ =~= cs@.take(i as int).map_values(|c: char| hint_char(c)));
    }
    assert(cs@.take(i as int) =~= cs@);
    string_from_chars(&out)
}

fn first_example(word: &Word) -> (r: Option<String>)
    ensures
        r == first_of(word.examples@),
{
    if word.examples.len() > 0 {
        Some(word.examples[0].clone())
    } else {
        None
    }
}

/// The index of the first correct option, or 0 when there is none.
fn first_correct_index(options: &Vec<McOption>) -> (i: usize)
    ensures
        is_first_correct(options@, i as int),
{
    let mut i: usize = 0;
    while i < options.len()
        invariant
            i <= options.len(),
            forall|j: int| 0 <= j < i ==> !options@[j].is_correct,
        decreases options.len() - i,
    {
        if options[i].is_correct {
            return i;
        }
        i = i + 1;
    }
    0
}

/// The word's option first, then one wrong option per distractor (at most
/// three), reading the definition or the term.
fn word_then_distractors(word: &Word, distractors: &[Word], by_definition: bool) -> (v: Vec<McOption>)
    ensures
        by_definition ==> v@ == definition_options(*word, distractors@),
        !by_definition ==> v@ == term_options(*word, distractors@),
{
    let mut v: Vec<McOption> = Vec::new();
    let first = if by_definition {
        word.definition.clone()
    } else {
        word.term.clone()
    };
    v.push(McOption { text: first, is_correct: true });
    let ghost head = v@;
    let mut i: usize = 0;
    while i < distractors.len() && i < 3
        invariant
            i <= distractors@.len(),
            i <= 3,
            head.len() == 1,
            by_definition ==> head[0] == (McOption { text: word.definition, is_correct: true }),
            !by_definition ==> head[0] == (McOption { text: word.term, is_correct: true }),
            by_definition ==> v@ == head + distractors@.take(i as int).map_values(
                |d: Word| wrong_definition(d),
            ),
            !by_definition ==> v@ == head + distractors@.take(i as int).map_values(
                |d: Word| wrong_term(d),
            ),
        decreases distractors@.len() - i,
    {
        let text = if by_definition {
            distractors[i].definition.clone()
        } else {
            distractors[i].term.clone()
        };
        v.push(McOption { text, is_correct: false });
        i = i + 1;
        assert(distractors@.take(i as int) =~= distractors@.take(i - 1).push(distractors@[i - 1]));
        assert(by_definition ==> v@ =~= head + distractors@.take(i as int).map_values(
            |d: Word| wrong_definition(d),
        ));
        assert(!by_definition ==> v@ =~= head + distractors@.take(i as int).map_values(
            |d: Word| wrong_term(d),
        ));
    }
    assert(first_n(distractors@, 3) =~= distractors@.take(i as int));
    v
}

/// Whether some synonym of the list reads as `t`.
fn lists_text_exec(list: &Vec<String>, t: &String) -> (r: bool)
    ensures
        r == lists_text(list@, t@),
{
    let mut i: usize = 0;
    while i < list.len()
        invariant
            i <= list.len(),
            forall|j: int| 0 <= j < i ==> list@[j]@ != t@,
        decreases list.len() - i,
    {
        if list[i] == *t {
            return true;
        }
        i = i + 1;
    }
    false
}

// ─── Generator ───────────────────────────────────────────────────────────────

pub struct ExerciseGenerator;

impl ExerciseGenerator {
    /// The exercise kind for this word's mastery level: an introduction for a
    /// new word, otherwise a random pick among the kinds of its level.
    pub fn choose_type(progress: &WordProgress, rng: &mut rand::rngs::SmallRng) -> (t: ExerciseType)
        ensures
            offered_types(progress.mastery_level).contains(t),
    {
        let types: Vec<ExerciseType> = match progress.mastery_level {
            MasteryLevel::New => {
                assert(offered_types(progress.mastery_level)[0] == ExerciseType::Introduction);
                return ExerciseType::Introduction;
            },
            MasteryLevel::Learning => vec![
                ExerciseType::MultipleChoice,
                ExerciseType::TrueFalse,
                ExerciseType::FillInBlank,
                ExerciseType::ContextualGuess,
            ],
            MasteryLevel::Reviewing => vec![
                ExerciseType::MultipleChoice,
                ExerciseType::FillInBlank,
                ExerciseType::ContextualGuess,
                ExerciseType::SynonymMatch,
                ExerciseType::DefinitionRecall,
            ],
            MasteryLevel::Mastered => vec![
                ExerciseType::SpellingCheck,
                ExerciseType::DefinitionRecall,
                ExerciseType::SynonymMatch,
                ExerciseType::ContextualGuess,
            ],
        };
        assert(types@ =~= offered_types(progress.mastery_level));
        match choose_exercise_type(types.as_slice(), rng) {
            Some(t) => t,
            None => {
                assert(false);
                ExerciseType::Introduction
            },
        }
    }

    /// An exercise of a kind suited to the word's mastery level.
    pub fn generate(
        word: &Word,
        progress: &WordProgress,
        distractors: &[Word],
        rng: &mut rand::rngs::SmallRng,
    ) -> (e: Exercise)
        ensures
            offered_types(progress.mastery_level).contains(kind_of(e)),
            exercise_built(e, kind_of(e), *word, *progress, distractors@),
    {
        let exercise_type = Self::choose_type(progress, rng);
        Self::generate_typed(exercise_type, word, progress, distractors, rng)
    }

    /// An exercise of the given kind.
    pub fn generate_typed(
        exercise_type: ExerciseType,
        word: &Word,
        progress: &WordProgress,
        distractors: &[Word],
        rng: &mut rand::rngs::SmallRng,
    ) -> (e: Exercise)
        ensures
            exercise_built(e, exercise_type, *word, *progress, distractors@),
    {
        match exercise_type {
            ExerciseType::Introduction => Exercise::Introduction(Self::make_introduction(word, progress)),
            ExerciseType::MultipleChoice => Exercise::MultipleChoice(
                Self::make_multiple_choice(word, distractors, rng),
            ),
            ExerciseType::FillInBlank => Exercise::FillInBlank(
                Self::make_fill_in_blank(word, distractors, rng),
            ),
            ExerciseType::ContextualGuess => Exercise::ContextualGuess(
                Self::make_contextual_guess(word, distractors, rng),
            ),
            ExerciseType::SpellingCheck => Exercise::SpellingCheck(Self::make_spelling_check(word)),
            ExerciseType::SynonymMatch => Exercise::SynonymMatch(
                Self::make_synonym_match(word, distractors, rng),
            ),
            ExerciseType::DefinitionRecall => Exercise::DefinitionRecall(
                Self::make_definition_recall(word, distractors, rng),
            ),
            ExerciseType::TrueFalse => Exercise::TrueFalse(Self::make_true_false(word, distractors, rng)),
        }
    }

    pub fn make_introduction(word: &Word, progress: &WordProgress) -> (x: IntroductionExercise)
        ensures
            introduction_built(x, *word, *progress),
    {
        let example = first_example(word);
        let mut synonyms: Vec<String> = Vec::new();
        let mut i: usize = 0;
        while i < word.synonyms.len() && i < 3
            invariant
                i <= word.synonyms@.len(),
                i <= 3,
                synonyms@ == word.synonyms@.take(i as int),
            decreases word.synonyms@.len() - i,
        {
            synonyms.push(word.synonyms[i].clone());
            i = i + 1;
            assert(synonyms@ =~= word.synonyms@.take(i as int));
        }
        assert(first_n(word.synonyms@, 3) =~= word.synonyms@.take(i as int));
        IntroductionExercise {
            word_id: word.id,
            term: word.term.clone(),
            phonetic: word.phonetic.clone(),
            part_of_speech: word.part_of_speech.clone(),
            definition: word.definition.clone(),
            example,
            synonyms,
            is_new_word: progress.total_reviews == 0,
        }
    }

    pub fn make_multiple_choice(word: &Word, distractors: &[Word], rng: &mut rand::rngs::SmallRng) -> (x: MultipleChoiceExercise)
        ensures
            multiple_choice_built(x, *word, distractors@),
    {
        let mut options = word_then_distractors(word, distractors, true);
        shuffle_vec(&mut options, rng);
        let correct_index = first_correct_index(&options);
        MultipleChoiceExercise {
            word_id: word.id,
            term: word.term.clone(),
            question: concat3("What does \"", word.term.as_str(), "\" mean?"),
            options,
            correct_index,
            hint: Some(word.part_of_speech.clone()),
        }
    }

    pub fn make_fill_in_blank(word: &Word, distractors: &[Word], rng: &mut rand::rngs::SmallRng) -> (x: FillInBlankExercise)
        ensures
            fill_in_blank_built(x, *word, distractors@),
    {
        let sentence = if word.examples.len() > 0 {
            word.examples[0].clone()
        } else {
            concat3("He demonstrated great ", word.term.as_str(), " in his work.")
        };
        let blank_sentence = replace_str(sentence.as_str(), word.term.as_str(), "_____");
        let hint = build_hint(word.term.as_str());
        let mut options: Vec<String> = Vec::new();
        options.push(word.term.clone());
        let ghost head = options@;
        let mut i: usize = 0;
        while i < distractors.len() && i < 3
            invariant
                i <= distractors@.len(),
                i <= 3,
                head == seq![word.term],
                options@ == head + distractors@.take(i as int).map_values(|d: Word| d.term),
            decreases distractors@.len() - i,
        {
            options.push(distractors[i].term.clone());
            i = i + 1;
            assert(distractors@.take(i as int) =~= distractors@.take(i - 1).push(distractors@[i - 1]));
            assert(options@ =~= head + distractors@.take(i as int).map_values(|d: Word| d.term));
        }
        assert(first_n(distractors@, 3) =~= distractors@.take(i as int));
        let ghost built = options@;
        shuffle_vec(&mut options, rng);
        FillInBlankExercise {
            word_id: word.id,
            sentence: blank_sentence,
            answer: word.term.clone(),
            hint: Some(hint),
            options,
        }
    }

    pub fn make_contextual_guess(word: &Word, distractors: &[Word], rng: &mut rand::rngs::SmallRng) -> (x: ContextualGuessExercise)
        ensures
            contextual_guess_built(x, *word, distractors@),
    {
        let context_sentence = if word.examples.len() > 0 {
            word.examples[0].clone()
        } else {
            concat3("She showed remarkable ", word.term.as_str(), " when faced with difficulty.")
        };
        let mut options = word_then_distractors(word, distractors, true);
        shuffle_vec(&mut options, rng);
        let correct_index = first_correct_index(&options);
        ContextualGuessExercise {
            word_id: word.id,
            term: word.term.clone(),
            context_sentence,
            options,
            correct_index,
        }
    }

    pub fn make_spelling_check(word: &Word) -> (x: SpellingCheckExercise)
        ensures
            spelling_check_built(x, *word),
    {
        let hint = build_hint(word.term.as_str());
        SpellingCheckExercise {
            word_id: word.id,
            definition: word.definition.clone(),
            answer: word.term.clone(),
            phonetic: word.phonetic.clone(),
            hint,
        }
    }

    pub fn make_synonym_match(word: &Word, distractors: &[Word], rng: &mut rand::rngs::SmallRng) -> (x: SynonymMatchExercise)
        ensures
            synonym_match_built(x, *word, distractors@),
    {
        let mut options: Vec<McOption> = Vec::new();
        let mut i: usize = 0;
        while i < word.synonyms.len() && i < 2
            invariant
                i <= word.synonyms@.len(),
                i <= 2,
                options@ == word.synonyms@.take(i as int).map_values(
                    |s: String| McOption { text: s, is_correct: true },
                ),
            decreases word.synonyms@.len() - i,
        {
            options.push(McOption { text: word.synonyms[i].clone(), is_correct: true });
            i = i + 1;
            assert(word.synonyms@.take(i as int) =~= word.synonyms@.take(i - 1).push(word.synonyms@[i - 1]));
            assert(options@ =~= word.synonyms@.take(i as int).map_values(
                |s: String| McOption { text: s, is_correct: true },
            ));
        }
        assert(first_n(word.synonyms@, 2) =~= word.synonyms@.take(i as int));
        let ghost head = options@;
        let mut k: usize = 0;
        while k < distractors.len() && k < 4
            invariant
                k <= distractors@.len(),
                k <= 4,
                options@ == head + distractors@.take(k as int).map_values(
                    |d: Word| McOption { text: d.term, is_correct: lists_text(word.synonyms@, d.term@) },
                ),
            decreases distractors@.len() - k,
        {
            let is_synonym = lists_text_exec(&word.synonyms, &distractors[k].term);
            options.push(McOption { text: distractors[k].term.clone(), is_correct: is_synonym });
            k = k + 1;
            assert(distractors@.take(k as int) =~= distractors@.take(k - 1).push(distractors@[k - 1]));
            assert(options@ =~= head + distractors@.take(k as int).map_values(
                |d: Word| McOption { text: d.term, is_correct: lists_text(word.synonyms@, d.term@) },
            ));
        }
        assert(first_n(distractors@, 4) =~= distractors@.take(k as int));
        assert(options@ =~= synonym_options(*word, distractors@));
        shuffle_vec(&mut options, rng);
        let mut correct_indices: Vec<usize> = Vec::new();
        let mut j: usize = 0;
        while j < options.len()
            invariant
                j <= options.len(),
                forall|q: int| 0 <= q < correct_indices.len() ==> correct_indices@[q] < j && options@[correct_indices@[q] as int].is_correct,
                forall|q1: int, q2: int| 0 <= q1 < q2 < correct_indices.len() ==> correct_indices@[q1] < correct_indices@[q2],
                forall|q: int| 0 <= q < j && options@[q].is_correct ==> correct_indices@.contains(q as usize),
            decreases options.len() - j,
        {
            let ghost prev = correct_indices@;
            if options[j].is_correct {
                correct_indices.push(j);
                assert(correct_indices@[correct_indices.len() - 1] == j);
            }
            assert forall|q: int| 0 <= q <= j && options@[q].is_correct implies correct_indices@.contains(q as usize) by {
                if q < j {
                    assert(prev.contains(q as usize));
                    let w = choose|w: int| 0 <= w < prev.len() && prev[w] == q as usize;
                    assert(correct_indices@[w] == q as usize);
                } else {
                    assert(correct_indices@[correct_indices.len() - 1] == j);
                }
            }
            j = j + 1;
        }
        SynonymMatchExercise {
            word_id: word.id,
            term: word.term.clone(),
            options,
            correct_indices,
            question: concat3("Which word is a synonym of \"", word.term.as_str(), "\"?"),
        }
    }

    pub fn make_definition_recall(word: &Word, distractors: &[Word], rng: &mut rand::rngs::SmallRng) -> (x: DefinitionRecallExercise)
        ensures
            definition_recall_built(x, *word, distractors@),
    {
        let mut options = word_then_distractors(word, distractors, false);
        shuffle_vec(&mut options, rng);
        let correct_index = first_correct_index(&options);
        DefinitionRecallExercise {
            word_id: word.id,
            definition: word.definition.clone(),
            part_of_speech: word.part_of_speech.clone(),
            answer: word.term.clone(),
            options,
            correct_index,
        }
    }

    pub fn make_true_false(word: &Word, distractors: &[Word], rng: &mut rand::rngs::SmallRng) -> (x: TrueFalseExercise)
        ensures
            true_false_built(x, *word, distractors@),
    {
        let is_correct_definition = coin_flip(rng);
        let (shown_definition, explanation) = if is_correct_definition {
            (
                word.definition.clone(),
                concat4("✓ Correct! \"", word.term.as_str(), "\" means: ", word.definition.as_str()),
            )
        } else {
            let wrong_def = if distractors.len() > 0 {
                distractors[0].definition.clone()
            } else {
                owned("the opposite of what it seems")
            };
            (
                wrong_def,
                concat4(
                    "✗ Wrong! \"",
                    word.term.as_str(),
                    "\" actually means: ",
                    word.definition.as_str(),
                ),
            )
        };
        TrueFalseExercise {
            word_id: word.id,
            term: word.term.clone(),
            shown_definition,
            is_correct_definition,
            explanation,
        }
    }
}

// ─── Laws ────────────────────────────────────────────────────────────────────

/// Exactly the word's own definition is marked correct among the options of a
/// multiple-choice exercise, and `correct_index` points at it.
pub proof fn lemma_multiple_choice_points_at_definition(x: MultipleChoiceExercise, w: Word, ds: Seq<Word>)
    requires
        multiple_choice_built(x, w, ds),
    ensures
        (x.correct_index as int) < x.options@.len(),
        x.options@[x.correct_index as int] == (McOption { text: w.definition, is_correct: true }),
        forall|j: int| 0 <= j < x.options@.len() && x.options@[j].is_correct ==> x.options@[j] == (
        McOption { text: w.definition, is_correct: true }),
{
    lemma_only_head_correct(x.options@, definition_options(w, ds), x.correct_index as int);
}

/// Exactly the word's own term is marked correct among the options of a
/// definition-recall exercise, and `correct_index` points at it.
pub proof fn lemma_definition_recall_points_at_term(x: DefinitionRecallExercise, w: Word, ds: Seq<Word>)
    requires
        definition_recall_built(x, w, ds),
    ensures
        (x.correct_index as int) < x.options@.len(),
        x.options@[x.correct_index as int] == (McOption { text: w.term, is_correct: true }),
        forall|j: int| 0 <= j < x.options@.len() && x.options@[j].is_correct ==> x.options@[j] == (
        McOption { text: w.term, is_correct: true }),
{
    lemma_only_head_correct(x.options@, term_options(w, ds), x.correct_index as int);
}

/// Exactly the word's own definition is marked correct among the options of a
/// contextual-guess exercise, and `correct_index` points at it.
pub proof fn lemma_contextual_guess_points_at_definition(x: ContextualGuessExercise, w: Word, ds: Seq<Word>)
    requires
        contextual_guess_built(x, w, ds),
    ensures
        (x.correct_index as int) < x.options@.len(),
        x.options@[x.correct_index as int] == (McOption { text: w.definition, is_correct: true }),
        forall|j: int| 0 <= j < x.options@.len() && x.options@[j].is_correct ==> x.options@[j] == (
        McOption { text: w.definition, is_correct: true }),
{
    lemma_only_head_correct(x.options@, definition_options(w, ds), x.correct_index as int);
}

/// A multiple-choice exercise offers the definition and at most three
/// distractors: between one and four options.
pub proof fn lemma_multiple_choice_option_count(x: MultipleChoiceExercise, w: Word, ds: Seq<Word>)
    requires
        multiple_choice_built(x, w, ds),
    ensures
        1 <= x.options@.len() <= 4,
        ds.len() >= 3 ==> x.options@.len() == 4,
{
    assert(x.options@.len() == x.options@.to_multiset().len());
    assert(definition_options(w, ds).len() == definition_options(w, ds).to_multiset().len());
}

/// If `built` has its only correct option at the front and `opts` is a
/// permutation of it, the first correct index of `opts` holds that option and
/// it is the only correct one.
proof fn lemma_only_head_correct(opts: Seq<McOption>, built: Seq<McOption>, ci: int)
    requires
        opts.to_multiset() == built.to_multiset(),
        built.len() > 0,
        built[0].is_correct,
        forall|k: int| 1 <= k < built.len() ==> !built[k].is_correct,
        is_first_correct(opts, ci),
    ensures
        0 <= ci < opts.len(),
        opts[ci] == built[0],
        forall|j: int| 0 <= j < opts.len() && opts[j].is_correct ==> opts[j] == built[0],
{
    assert(built.contains(built[0]));
    assert(opts.to_multiset().count(built[0]) > 0);
    assert(opts.contains(built[0]));
    let j0 = choose|j: int| 0 <= j < opts.len() && opts[j] == built[0];
    assert(opts[j0].is_correct);
    assert forall|j: int| 0 <= j < opts.len() && opts[j].is_correct implies opts[j] == built[0] by {
        assert(opts.contains(opts[j]));
        assert(built.to_multiset().count(opts[j]) > 0);
        assert(built.contains(opts[j]));
        let k = choose|k: int| 0 <= k < built.len() && built[k] == opts[j];
        if k != 0 {
            assert(!built[k].is_correct);
        }
    }
}

} // verus!
