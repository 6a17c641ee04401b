use vocab_trainer::db::{MasteryLevel, WordProgress};
use vocab_trainer::learning::sm2::{
    apply_result_at, calculate_next, compute_session_interval_at, score_from_response,
    session_delay_ms,
};

fn fresh_progress() -> WordProgress {
    WordProgress {
        id: 1,
        word_id: 1,
        easiness_hundredths: 250,
        interval_centidays: 0,
        repetitions: 0,
        iterations: 0,
        next_review_at: chrono::Utc::now().timestamp_millis(),
        last_review_at: None,
        total_reviews: 0,
        correct_reviews: 0,
        streak: 0,
        introduced_at: None,
        session_reviews: 0,
        next_session_review_at: None,
        mastery_level: MasteryLevel::New,
    }
}

fn days(centidays: i64) -> f64 {
    centidays as f64 / 100.0
}

#[test]
fn first_correct_review_gives_1_day() {
    let p = fresh_progress();
    let r = calculate_next(&p, 4, 2);
    assert_eq!(r.iterations, 1);
    assert!((days(r.interval_centidays) - 1.0).abs() < 0.1);
}

#[test]
fn failed_recall_resets_iterations() {
    let mut p = fresh_progress();
    p.iterations = 5;
    p.interval_centidays = 2100;
    let r = calculate_next(&p, 2, 2);
    assert_eq!(r.iterations, 0);
    // A failed recall comes back after one day.
    assert_eq!(days(r.interval_centidays), 1.0);
}

#[test]
fn ef_cannot_drop_below_1_3() {
    let mut p = fresh_progress();
    for _ in 0..20 {
        let r = calculate_next(&p, 0, 3);
        p.easiness_hundredths = r.easiness_hundredths;
    }
    assert!(p.easiness_hundredths as f64 / 100.0 >= 1.3);
}

#[test]
fn difficulty_5_halves_interval() {
    let p = fresh_progress();
    let easy = calculate_next(&p, 5, 1);
    let hard = calculate_next(&p, 5, 5);
    assert!(hard.interval_centidays <= easy.interval_centidays);
}

#[test]
fn easiness_moves_by_quality() {
    let p = fresh_progress();
    let expected = [(0, 170), (1, 196), (2, 218), (3, 236), (4, 250), (5, 260)];
    for (q, ef) in expected {
        assert_eq!(calculate_next(&p, q, 2).easiness_hundredths, ef, "quality {}", q);
    }
    let mut high = fresh_progress();
    high.easiness_hundredths = 348;
    assert_eq!(calculate_next(&high, 5, 2).easiness_hundredths, 350);
}

#[test]
fn second_success_gives_six_days_and_third_multiplies() {
    let mut p = fresh_progress();
    p.iterations = 1;
    p.interval_centidays = 100;
    let r = calculate_next(&p, 4, 2);
    assert_eq!(r.interval_centidays, 600);
    assert_eq!(r.iterations, 2);
    assert_eq!(r.mastery_level, MasteryLevel::Learning);

    p.iterations = 2;
    p.interval_centidays = 600;
    // round(6 * 2.5) = 15 days
    assert_eq!(calculate_next(&p, 4, 2).interval_centidays, 1500);
    // scaled by 0.85 for difficulty 3
    assert_eq!(calculate_next(&p, 4, 3).interval_centidays, 1275);
    // quality 3 lowers EF to 2.36: round(6 * 2.36) = round(14.16) = 14
    assert_eq!(calculate_next(&p, 3, 2).interval_centidays, 1400);
    // round(5.1 * 2.5) = round(12.75) = 13
    p.interval_centidays = 510;
    assert_eq!(calculate_next(&p, 4, 2).interval_centidays, 1300);
}

#[test]
fn difficulty_factors_and_minimum_day() {
    let mut p = fresh_progress();
    p.iterations = 1;
    p.interval_centidays = 100;
    let expected = [(1, 720), (2, 600), (3, 510), (4, 420), (5, 330), (9, 600)];
    for (d, cd) in expected {
        assert_eq!(calculate_next(&p, 5, d).interval_centidays, cd, "difficulty {}", d);
    }
    // one day scaled down stays at one day
    let q = fresh_progress();
    assert_eq!(calculate_next(&q, 5, 5).interval_centidays, 100);
    assert_eq!(calculate_next(&q, 1, 1).interval_centidays, 120);
}

#[test]
fn mastery_transitions() {
    let mut p = fresh_progress();
    p.iterations = 3;
    p.interval_centidays = 1000;
    let r = calculate_next(&p, 5, 2);
    assert_eq!(r.iterations, 4);
    assert_eq!(r.mastery_level, MasteryLevel::Mastered); // round(10 * 2.6) = 26 days >= 21
    p.interval_centidays = 500;
    assert_eq!(calculate_next(&p, 5, 2).mastery_level, MasteryLevel::Reviewing); // 13 days
    p.iterations = 7;
    assert_eq!(calculate_next(&p, 5, 2).mastery_level, MasteryLevel::Mastered);
    assert_eq!(calculate_next(&p, 2, 2).mastery_level, MasteryLevel::Learning);
    p.iterations = -1;
    assert_eq!(calculate_next(&p, 5, 2).mastery_level, MasteryLevel::New);
    assert_eq!(calculate_next(&p, 5, 2).repetitions, 1);
}

#[test]
fn quality_from_response() {
    assert_eq!(score_from_response(false, 1000, 2), 1);
    assert_eq!(score_from_response(false, 3000, 2), 0);
    assert_eq!(score_from_response(true, 999, 1), 5);
    assert_eq!(score_from_response(true, 1000, 1), 4);
    assert_eq!(score_from_response(true, 1999, 1), 4);
    assert_eq!(score_from_response(true, 2000, 1), 3);
    assert_eq!(score_from_response(true, 60000, 4), 3);
    assert_eq!(score_from_response(true, 3499, 9), 5);
    assert_eq!(score_from_response(true, 3500, 9), 4);
}

#[test]
fn session_schedule() {
    assert_eq!(session_delay_ms(0), 15 * 60_000);
    assert_eq!(session_delay_ms(1), 15 * 60_000);
    assert_eq!(session_delay_ms(2), 3_600_000);
    assert_eq!(session_delay_ms(3), 3 * 3_600_000);
    assert_eq!(session_delay_ms(4), 6 * 3_600_000);
    assert_eq!(session_delay_ms(-1), 6 * 3_600_000);
    assert_eq!(compute_session_interval_at(2, 1_000), 3_601_000);
    assert_eq!(compute_session_interval_at(-1, 1_000), 1_000 + 6 * 3_600_000);
}

#[test]
fn applying_a_result() {
    let now = 1_700_000_000_000;
    let mut p = fresh_progress();
    let r = calculate_next(&p, 4, 2);
    apply_result_at(&mut p, r, 4, now);
    assert_eq!(p.total_reviews, 1);
    assert_eq!(p.correct_reviews, 1);
    assert_eq!(p.streak, 1);
    assert_eq!(p.last_review_at, Some(now));
    assert_eq!(p.introduced_at, Some(now));
    assert_eq!(p.next_review_at, now + 86_400_000);
    assert_eq!(p.session_reviews, 1);
    assert_eq!(p.next_session_review_at, Some(now + 15 * 60_000));

    let r = calculate_next(&p, 0, 2);
    apply_result_at(&mut p, r, 0, now + 5);
    assert_eq!(p.streak, 0);
    assert_eq!(p.correct_reviews, 1);
    assert_eq!(p.total_reviews, 2);
    assert_eq!(p.introduced_at, Some(now));
    assert_eq!(p.next_session_review_at, Some(now + 5 + 3_600_000));

    // a good answer on an interval under half a day waits twelve hours
    let mut q = fresh_progress();
    let mut short = calculate_next(&q, 4, 2);
    short.interval_centidays = 40;
    apply_result_at(&mut q, short, 4, now);
    assert_eq!(q.next_review_at, now + 12 * 3_600_000);
    // a weak answer on a tiny interval waits at least 30 seconds
    let mut z = fresh_progress();
    let mut tiny = calculate_next(&z, 3, 2);
    tiny.interval_centidays = 0;
    apply_result_at(&mut z, tiny, 3, now);
    assert_eq!(z.next_review_at, now + 30_000);
    // a negative interval is accepted and also waits 30 seconds
    let mut n = fresh_progress();
    let mut negative = calculate_next(&n, 3, 2);
    negative.interval_centidays = -250;
    apply_result_at(&mut n, negative, 3, now);
    assert_eq!(n.next_review_at, now + 30_000);
    assert_eq!(n.interval_centidays, -250);
}
