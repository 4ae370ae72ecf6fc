use test_messages::fixtures::{kinds, FixtureKind, TELEGRAM_LIMIT};
use test_messages::info::{
    estimated_chunks, message_info, preview, separator_line, will_split, PREVIEW_LENGTH,
    SEPARATOR_WIDTH,
};

fn separator() -> String {
    "=".repeat(60)
}

#[test]
fn separator_line_is_60_equals_signs() {
    assert_eq!(SEPARATOR_WIDTH, 60);
    assert_eq!(separator_line(), separator());
    assert_eq!(separator_line().chars().count(), 60);
    assert!(separator_line().chars().all(|c| c == '='));
}

#[test]
fn will_split_only_above_the_limit() {
    assert!(!will_split(0));
    assert!(!will_split(36));
    assert!(!will_split(4095));
    assert!(!will_split(4096));
    assert!(will_split(4097));
    assert!(will_split(4200));
    assert!(will_split(usize::MAX));
}

#[test]
fn estimated_chunks_rounds_up() {
    assert_eq!(estimated_chunks(5460), 2);
    assert_eq!(estimated_chunks(4097), 2);
    assert_eq!(estimated_chunks(4200), 2);
    assert_eq!(estimated_chunks(8192), 2);
    assert_eq!(estimated_chunks(8193), 3);
    assert_eq!(estimated_chunks(12288), 3);
    assert_eq!(estimated_chunks(12289), 4);
    assert_eq!(estimated_chunks(14250), 4);
}

#[test]
fn estimated_chunks_at_and_below_the_limit() {
    assert_eq!(estimated_chunks(0), 0);
    assert_eq!(estimated_chunks(1), 1);
    assert_eq!(estimated_chunks(4095), 1);
    assert_eq!(estimated_chunks(4096), 1);
}

#[test]
fn estimated_chunks_of_the_largest_length() {
    assert_eq!(estimated_chunks(usize::MAX), usize::MAX / 4096 + 1);
    assert_eq!(estimated_chunks(usize::MAX - 4095), usize::MAX / 4096);
}

#[test]
fn estimated_chunks_of_every_long_fixture() {
    let mut long_ones = 0;
    for kind in kinds() {
        let length = kind.generate().chars().count();
        if length > TELEGRAM_LIMIT {
            long_ones += 1;
            let chunks = estimated_chunks(length);
            assert_eq!(chunks, (length + TELEGRAM_LIMIT - 1) / TELEGRAM_LIMIT);
            assert!(chunks * TELEGRAM_LIMIT >= length);
            assert!((chunks - 1) * TELEGRAM_LIMIT < length);
        }
    }
    assert_eq!(long_ones, 5);
    assert_eq!(estimated_chunks(FixtureKind::Long.generate().chars().count()), 2);
    assert_eq!(estimated_chunks(FixtureKind::Over.generate().chars().count()), 2);
    assert_eq!(estimated_chunks(FixtureKind::Multi.generate().chars().count()), 4);
    assert_eq!(estimated_chunks(FixtureKind::Newline.generate().chars().count()), 2);
    assert_eq!(estimated_chunks(FixtureKind::Word.generate().chars().count()), 2);
}

#[test]
fn preview_keeps_a_message_of_up_to_200_characters() {
    assert_eq!(PREVIEW_LENGTH, 200);
    assert_eq!(preview(""), "");
    assert_eq!(preview("Hello"), "Hello");
    let at_bound = "a".repeat(200);
    assert_eq!(preview(&at_bound), at_bound);
}

#[test]
fn preview_cuts_a_longer_message_after_200_characters() {
    let text = format!("{}{}", "a".repeat(200), "b");
    assert_eq!(preview(&text), format!("{}...", "a".repeat(200)));
    let long = FixtureKind::Word.generate();
    assert_eq!(preview(&long), format!("{}...", "word ".repeat(40)));
    assert_eq!(preview(&long).chars().count(), 203);
}

#[test]
fn preview_counts_characters_not_bytes() {
    let at_bound = "é".repeat(200);
    assert_eq!(preview(&at_bound), at_bound);
    let longer = format!("{}z", "é".repeat(200));
    assert_eq!(preview(&longer), format!("{}...", "é".repeat(200)));
    let mixed = format!("{}{}", "a".repeat(199), "€€€");
    assert_eq!(preview(&mixed), format!("{}€...", "a".repeat(199)));
}

#[test]
fn message_info_of_a_short_message() {
    let lines = message_info("Hello! This is a short test message.", "Short Message");
    assert_eq!(
        lines,
        vec![
            separator(),
            "Short Message".to_string(),
            separator(),
            "Length: 36 characters".to_string(),
            "Will split: No".to_string(),
            separator(),
            "Hello! This is a short test message.".to_string(),
            separator(),
            String::new(),
        ]
    );
}

#[test]
fn message_info_of_a_long_message() {
    let message = FixtureKind::Long.generate();
    let lines = message_info(&message, "Long Message");
    assert_eq!(
        lines,
        vec![
            separator(),
            "Long Message".to_string(),
            separator(),
            "Length: 5180 characters".to_string(),
            "Will split: Yes".to_string(),
            "Estimated chunks: 2".to_string(),
            separator(),
            format!("{}...", &message[..200]),
            separator(),
            String::new(),
        ]
    );
}

#[test]
fn message_info_of_a_message_at_the_limit() {
    let message = FixtureKind::Exact.generate();
    let lines = message_info(&message, "Exact Limit (4096)");
    assert_eq!(
        lines,
        vec![
            separator(),
            "Exact Limit (4096)".to_string(),
            separator(),
            "Length: 4096 characters".to_string(),
            "Will split: No".to_string(),
            separator(),
            format!("{}...", "x".repeat(200)),
            separator(),
            String::new(),
        ]
    );
}

#[test]
fn message_info_of_a_message_just_over_the_limit() {
    let message = "y".repeat(4097);
    let lines = message_info(&message, "");
    assert_eq!(lines.len(), 10);
    assert_eq!(lines[1], "");
    assert_eq!(lines[3], "Length: 4097 characters");
    assert_eq!(lines[4], "Will split: Yes");
    assert_eq!(lines[5], "Estimated chunks: 2");
}

#[test]
fn message_info_of_a_message_of_several_chunks() {
    let message = FixtureKind::Multi.generate();
    let lines = message_info(&message, "Multi-Chunk Message");
    assert_eq!(lines.len(), 10);
    assert_eq!(lines[3], "Length: 14250 characters");
    assert_eq!(lines[4], "Will split: Yes");
    assert_eq!(lines[5], "Estimated chunks: 4");
}

#[test]
fn message_info_of_an_empty_message() {
    let lines = message_info("", "Nothing");
    assert_eq!(
        lines,
        vec![
            separator(),
            "Nothing".to_string(),
            separator(),
            "Length: 0 characters".to_string(),
            "Will split: No".to_string(),
            separator(),
            String::new(),
            separator(),
            String::new(),
        ]
    );
}

#[test]
fn message_info_counts_characters_not_bytes() {
    let message = "é".repeat(4096);
    assert_eq!(message.len(), 8192);
    let lines = message_info(&message, "Accents");
    assert_eq!(lines.len(), 9);
    assert_eq!(lines[3], "Length: 4096 characters");
    assert_eq!(lines[4], "Will split: No");
    assert_eq!(lines[6], format!("{}...", "é".repeat(200)));
}

#[test]
fn message_info_is_bounded_by_separator_lines() {
    for kind in kinds() {
        let lines = message_info(&kind.generate(), kind.display_name());
        let count = lines.len();
        assert_eq!(lines[0], separator());
        assert_eq!(lines[2], separator());
        assert_eq!(lines[count - 4], separator());
        assert_eq!(lines[count - 2], separator());
        assert_eq!(lines[count - 1], "");
        assert_eq!(lines.iter().filter(|line| **line == separator()).count(), 4);
    }
}
