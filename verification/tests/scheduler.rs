use vocab_trainer::db::{Word, WordProgress};
use vocab_trainer::learning::scheduler::{
    ActivityDetector, PollAction, PopupConditions, Rect, Scheduler, SchedulerConfig, SchedulerState,
    select_next_exercise,
};

fn all_true() -> PopupConditions {
    PopupConditions {
        user_is_idle: true,
        no_fullscreen: true,
        enough_time_since_last: true,
        within_work_hours: true,
        not_paused: true,
        has_due_exercises: true,
        under_daily_limit: true,
    }
}

fn word(id: i64) -> Word {
    Word {
        id,
        term: format!("term{}", id),
        definition: "d".to_string(),
        definition_pl: None,
        part_of_speech: "noun".to_string(),
        phonetic: None,
        examples: vec![],
        synonyms: vec![],
        antonyms: vec![],
        tags: vec![],
        difficulty: 2,
        created_at: 0,
        is_active: true,
        sentence_pl: None,
        sentence_en: None,
        category: None,
    }
}

#[test]
fn conditions_and_reasons() {
    let c = all_true();
    assert!(c.all_met());
    assert_eq!(c.reason_blocked(), None);
    let mut d = all_true();
    d.within_work_hours = false;
    d.under_daily_limit = false;
    assert!(!d.all_met());
    assert_eq!(d.reason_blocked(), Some("outside work hours"));
    let mut e = all_true();
    e.user_is_idle = false;
    e.not_paused = false;
    assert_eq!(e.reason_blocked(), Some("user active"));
    let mut f = all_true();
    f.under_daily_limit = false;
    assert_eq!(f.reason_blocked(), Some("daily limit reached"));
}

#[test]
fn default_config_and_state() {
    let c = SchedulerConfig::default();
    assert_eq!(c.idle_threshold_secs, 5);
    assert_eq!(c.min_popup_gap_secs, 1800);
    assert_eq!(c.poll_interval_secs, 10);
    assert_eq!(c.max_daily_exercises, 50);
    assert_eq!((c.work_hours_start, c.work_hours_end), (8, 22));
    let s = SchedulerState::new("abc".to_string());
    assert_eq!(s.exercises_today, 0);
    assert!(!s.is_paused);
    assert!(s.last_popup_at.is_none());
}

#[test]
fn checks_gap_hours_and_limit() {
    let mut s = Scheduler::new(SchedulerConfig::default(), "sess".to_string());
    // no input measured yet: 0 s idle is below the 5 s threshold
    assert_eq!(s.check_conditions_at(9, 1_000).reason_blocked(), Some("user active"));
    s.detector.record_foreground(Some(Rect { left: 0, top: 0, right: 10, bottom: 10 }), Some(Rect { left: 0, top: 0, right: 10, bottom: 10 }));
    s.detector.record_idle_seconds(5);
    assert_eq!(s.check_conditions_at(9, 1_000).reason_blocked(), Some("fullscreen app"));
    s.detector.record_foreground(None, None);
    let c = s.check_conditions_at(9, 1_000);
    assert!(c.all_met());
    s.record_popup_shown(1_000);
    assert_eq!(s.state.exercises_today, 1);
    let c = s.check_conditions_at(9, 1_000 + 1_799_999);
    assert!(!c.enough_time_since_last);
    assert_eq!(c.reason_blocked(), Some("too soon"));
    let c = s.check_conditions_at(9, 1_000 + 1_800_000);
    assert!(c.enough_time_since_last);
    assert!(!s.check_conditions_at(22, 5_000_000).within_work_hours);
    assert!(!s.check_conditions_at(7, 5_000_000).within_work_hours);
    s.set_paused(true);
    assert_eq!(s.check_conditions_at(9, 9_000_000).reason_blocked(), Some("paused"));
    s.set_paused(false);
    s.state.exercises_today = 50;
    assert_eq!(s.check_conditions_at(9, 9_000_000).reason_blocked(), Some("daily limit reached"));
}

#[test]
fn dismissals_restart_the_gap() {
    let mut s = Scheduler::new(SchedulerConfig::default(), "sess".to_string());
    s.record_popup_dismissed(false, 10);
    assert_eq!(s.state.exercises_today, 0);
    assert_eq!(s.state.last_popup_at, Some(10));
    s.record_popup_dismissed(true, 20);
    assert_eq!(s.state.exercises_today, 1);
    s.record_popup_showing(30);
    assert_eq!(s.state.last_popup_at, Some(30));
    assert_eq!(s.state.exercises_today, 1);
    s.set_active_category(Some("IT".to_string()));
    assert_eq!(s.active_category().as_deref(), Some("IT"));
    assert_eq!(s.session_id(), "sess");
    let mut cfg = SchedulerConfig::default();
    cfg.max_daily_exercises = 3;
    s.update_config(cfg);
    assert_eq!(s.config.max_daily_exercises, 3);
}

#[test]
fn poll_shows_or_blocks() {
    let mut s = Scheduler::new(SchedulerConfig::default(), "sess".to_string());
    let w = word(5);
    match s.poll(all_true(), Some(&w), 100) {
        PollAction::ShowExercise { word_id, session_id } => {
            assert_eq!(word_id, 5);
            assert_eq!(session_id, "sess");
        }
        other => panic!("unexpected {:?}", other),
    }
    assert_eq!(s.state.exercises_today, 1);
    assert_eq!(s.state.last_popup_at, Some(100));
    match s.poll(all_true(), None, 200) {
        PollAction::Blocked { reason } => assert_eq!(reason, Some("no due exercises")),
        other => panic!("unexpected {:?}", other),
    }
    assert_eq!(s.state.exercises_today, 1);
}

#[test]
fn next_exercise_prefers_in_session_then_due() {
    let mut p = WordProgress::fresh(1, 1, 0);
    p.next_session_review_at = Some(50);
    let current = Some((word(1), p.clone()));
    let due = vec![(word(2), WordProgress::fresh(2, 2, 0)), (word(3), WordProgress::fresh(3, 3, 0))];
    assert_eq!(select_next_exercise(current.clone(), 60, due.clone()).unwrap().0.id, 1);
    assert_eq!(select_next_exercise(current.clone(), 40, due.clone()).unwrap().0.id, 2);
    assert_eq!(select_next_exercise(current.clone(), 40, vec![]).unwrap().0.id, 1);
    assert!(select_next_exercise(None, 40, vec![]).is_none());
}

#[test]
fn activity_detector() {
    let mut d = ActivityDetector::new();
    assert_eq!(d.idle_seconds(), 0);
    assert!(!d.is_fullscreen_active());
    assert_eq!(d.record_input_ticks(12_500, 2_000), 10);
    assert_eq!(d.last_known_idle_secs, 10);
    assert_eq!(d.idle_seconds(), 10);
    assert_eq!(d.record_input_ticks(100, 2_000), 0);
    assert_eq!(d.idle_seconds(), 0);
    d.record_idle_seconds(42);
    assert_eq!(d.idle_seconds(), 42);
    let monitor = Rect { left: 0, top: 0, right: 1920, bottom: 1080 };
    d.record_foreground(Some(Rect { left: 0, top: 0, right: 1920, bottom: 1080 }), Some(monitor));
    assert!(d.is_fullscreen_active());
    d.record_foreground(Some(Rect { left: 10, top: 0, right: 1920, bottom: 1080 }), Some(monitor));
    assert!(!d.is_fullscreen_active());
    d.record_foreground(None, Some(monitor));
    assert!(!d.is_fullscreen_active());
    assert_eq!(d.idle_seconds(), 42);
    assert!(ActivityDetector::covers_monitor(Rect { left: -8, top: -8, right: 1928, bottom: 1088 }, monitor));
    assert!(!ActivityDetector::covers_monitor(Rect { left: 0, top: 0, right: 1900, bottom: 1080 }, monitor));
}
