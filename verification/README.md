# vocab_trainer

A vocabulary trainer built around SM-2 spaced repetition: words are reviewed
in small exercises that pop up while the user is idle, and every answer moves
the word along its review schedule.

## Layout

- `src/` — the library, verified with Verus.
  - `learning/sm2.rs` — the SM-2 step (easiness in hundredths, intervals in
    hundredths of a day), the answer score, the in-session micro-schedule,
    and the laws of the schedule.
  - `learning/exercise_generator.rs` — the eight exercise kinds and how each
    is built from a word, its progress and distractor words.
  - `learning/scheduler.rs` — the popup conditions (idle, gap, working hours,
    pause, due words, daily limit) and one poll of the scheduler.
  - `learning/mod.rs` — recording an answer, starting a session, difficulty
    adjustment, the activity grid, session identifiers.
  - `db.rs` — the records (words, progress, history, statistics), streaks and
    accuracy.
  - `commands.rs` — what the user interface receives: settings, flashcard
    grades and results, the SRS overview, word creation and JSON import.
  - `text.rs`, `tts.rs`, `clock.rs`, `random.rs` — strings, speech-file
    names and data URLs, the clock and the random source.
- `app/` — the program around the library: the SQLite store, the scheduler
  loop, the speech proxy, window events, and a JSON-lines command channel on
  standard input.
- `tests/` — tests of the library on concrete values.
