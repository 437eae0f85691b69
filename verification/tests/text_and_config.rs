use ini::Ini;
use moujin::config::{player_message_id, record_player_message};
use moujin::player::PlayerError;
use moujin::text::{encode_spaces, has_prefix, parse_u64, same_text, u64_to_decimal};

#[test]
fn decimal_of_small_and_large_numbers() {
    assert_eq!(u64_to_decimal(0), "0");
    assert_eq!(u64_to_decimal(7), "7");
    assert_eq!(u64_to_decimal(10), "10");
    assert_eq!(u64_to_decimal(1234567890), "1234567890");
    assert_eq!(u64_to_decimal(u64::MAX), "18446744073709551615");
}

#[test]
fn decimal_matches_to_string() {
    for n in [1u64, 9, 99, 100, 101, 65535, 987654321012, u64::MAX - 1] {
        assert_eq!(u64_to_decimal(n), n.to_string());
    }
}

#[test]
fn parse_accepts_digits_and_plus() {
    assert_eq!(parse_u64("42"), Some(42));
    assert_eq!(parse_u64("+7"), Some(7));
    assert_eq!(parse_u64("007"), Some(7));
    assert_eq!(parse_u64("18446744073709551615"), Some(u64::MAX));
}

#[test]
fn parse_rejects_what_std_rejects() {
    for s in ["", "+", "-1", "12a", " 1", "1 ", "++1", "18446744073709551616", "99999999999999999999999"] {
        assert_eq!(parse_u64(s), None, "{:?}", s);
        assert!(s.parse::<u64>().is_err());
    }
}

#[test]
fn parse_agrees_with_std() {
    for s in ["0", "+0", "123", "+18446744073709551615", "5a", "٣", "1_000"] {
        assert_eq!(parse_u64(s), s.parse::<u64>().ok(), "{:?}", s);
    }
}

#[test]
fn parse_of_decimal_roundtrips() {
    for n in [0u64, 1, 42, 1000000007, 872913476291837465, u64::MAX] {
        assert_eq!(parse_u64(&u64_to_decimal(n)), Some(n));
    }
}

#[test]
fn prefix_test() {
    assert!(has_prefix("https://youtu.be/x", "http"));
    assert!(has_prefix("http", "http"));
    assert!(!has_prefix("htt", "http"));
    assert!(!has_prefix("ftp://host", "http"));
    assert!(has_prefix("anything", ""));
}

#[test]
fn same_text_compares_characters() {
    assert!(same_text("ping", "ping"));
    assert!(!same_text("ping", "pong"));
    assert!(!same_text("ping", "pings"));
    assert!(same_text("", ""));
}

#[test]
fn spaces_are_encoded() {
    assert_eq!(encode_spaces("Aerith Gainsborough"), "Aerith%2BGainsborough");
    assert_eq!(encode_spaces("  a "), "%2B%2Ba%2B");
    assert_eq!(encode_spaces("Noël"), "Noël");
    assert_eq!(encode_spaces(""), "");
}

#[test]
fn encoding_matches_replace() {
    for s in ["Y'shtola Rhul", "a b c", "no-space", " é è "] {
        let e = encode_spaces(s);
        assert_eq!(e, s.replace(" ", "%2B"));
        assert!(!e.contains(' '));
    }
}

#[test]
fn encoding_of_concatenation() {
    let (a, b) = ("Cid ", "Garlond");
    assert_eq!(encode_spaces(&format!("{}{}", a, b)), format!("{}{}", encode_spaces(a), encode_spaces(b)));
}

#[test]
fn recorded_player_is_found_again() {
    let mut config = Ini::new();
    record_player_message(&mut config, 123456789012345678, 998877665544332211);
    assert_eq!(player_message_id(&config, 123456789012345678), Ok(998877665544332211));
    assert_eq!(config.get_from(Some("123456789012345678"), "command_id"), Some("998877665544332211"));
}

#[test]
fn recording_replaces_the_old_player() {
    let mut config = Ini::new();
    record_player_message(&mut config, 5, 1);
    record_player_message(&mut config, 5, 2);
    assert_eq!(player_message_id(&config, 5), Ok(2));
}

#[test]
fn recording_keeps_other_guilds() {
    let mut config = Ini::new();
    record_player_message(&mut config, 1, 11);
    record_player_message(&mut config, 2, 22);
    assert_eq!(player_message_id(&config, 1), Ok(11));
    assert_eq!(player_message_id(&config, 2), Ok(22));
    assert_eq!(player_message_id(&config, 3), Err(PlayerError::NotRecorded));
}

#[test]
fn missing_and_invalid_player_ids() {
    let config = Ini::load_from_str("[TOKENS]\nDISCORD_TOKEN=abc\n[77]\ncommand_id=not-a-number\n[78]\nother=1\n").unwrap();
    assert_eq!(player_message_id(&config, 77), Err(PlayerError::InvalidId));
    assert_eq!(player_message_id(&config, 78), Err(PlayerError::NotRecorded));
    assert_eq!(player_message_id(&config, 79), Err(PlayerError::NotRecorded));
}

#[test]
fn player_id_read_from_a_file_text() {
    let config = Ini::load_from_str("[42]\ncommand_id=1000\n").unwrap();
    assert_eq!(player_message_id(&config, 42), Ok(1000));
}
