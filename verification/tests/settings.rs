use vocab_trainer::{parse_hhmm_to_mins, try_parse_hhmm_to_mins};
use vocab_trainer::tts::{
    audio_data_url, audio_file_name, cached_audio_usable, data_url_for_content, decode_audio_content,
    safe_term, temp_file_name,
};

#[test]
fn hhmm_parsing() {
    assert_eq!(parse_hhmm_to_mins("08:30", 480), 510);
    assert_eq!(parse_hhmm_to_mins("22:00", 1320), 1320);
    assert_eq!(parse_hhmm_to_mins("08", 480), 480);
    assert_eq!(parse_hhmm_to_mins("xx:15", 480), 480);
    assert_eq!(parse_hhmm_to_mins("xx:30", 480), 480);
    assert_eq!(parse_hhmm_to_mins("07:yy", 480), 480);
    assert_eq!(parse_hhmm_to_mins("08:xx", 1320), 1320);
    assert_eq!(parse_hhmm_to_mins("+7:05", 0), 425);
    assert_eq!(parse_hhmm_to_mins("", 1320), 1320);
    assert_eq!(parse_hhmm_to_mins("1:2:3", 0), 0);
    assert_eq!(parse_hhmm_to_mins("", 125), 125);
    assert_eq!(try_parse_hhmm_to_mins("4294967295:00", 0), None);
    assert_eq!(try_parse_hhmm_to_mins("10:05", 0), Some(605));
    assert_eq!(try_parse_hhmm_to_mins("ab", 77), Some(77));
}

#[test]
fn tts_names_and_urls() {
    assert_eq!(safe_term("give up!"), "give_up_");
    assert_eq!(safe_term("x-ray_ok"), "x-ray_ok");
    assert_eq!(safe_term("żółw"), "___w");
    assert_eq!(audio_file_name("a b"), "a_b.mp3");
    assert_eq!(temp_file_name("a b"), "a b.tmp.mp3");
    assert!(!cached_audio_usable(1000));
    assert!(cached_audio_usable(1001));
    assert_eq!(audio_data_url(&b"hello".to_vec()), "data:audio/mp3;base64,aGVsbG8=");
    assert_eq!(data_url_for_content("aGVsbG8="), "data:audio/mp3;base64,aGVsbG8=");
    assert_eq!(decode_audio_content("aGVsbG8=").unwrap(), b"hello".to_vec());
    assert!(decode_audio_content("***").unwrap_err().starts_with("Failed to decode base64: "));
}
