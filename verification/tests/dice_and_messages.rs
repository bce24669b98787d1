use pokerole_discord_bot::list_characters::{split_long_line, split_message_at_linebreaks, MAX_MESSAGE_LENGTH};
use pokerole_discord_bot::roll::{has_super_luck, parse_query, roll_report, ParsedRollQuery, SUPER_LUCK_USER_ID};

#[test]
fn new_query_fills_in_and_bounds_values() {
    let q = ParsedRollQuery::new(None, None, None);
    assert_eq!((q.amount(), q.sides(), q.flat_addition()), (1, 6, 0));
    let q = ParsedRollQuery::new(Some(0), Some(1), Some(7));
    assert_eq!((q.amount(), q.sides(), q.flat_addition()), (1, 2, 7));
    let q = ParsedRollQuery::new(Some(200), Some(200), None);
    assert_eq!((q.amount(), q.sides()), (100, 100));
}

#[test]
fn query_string_of_a_button() {
    let q = ParsedRollQuery::new(Some(3), Some(8), Some(2));
    assert_eq!(q.as_button_callback_query_string(), "roll-dice_3d8+2");
}

#[test]
fn queries_parse_in_all_their_forms() {
    let q = parse_query("2d6+3").ok().unwrap();
    assert_eq!((q.amount(), q.sides(), q.flat_addition()), (2, 6, 3));
    let q = parse_query("4d10").ok().unwrap();
    assert_eq!((q.amount(), q.sides(), q.flat_addition()), (4, 10, 0));
    let q = parse_query("5").ok().unwrap();
    assert_eq!((q.amount(), q.sides(), q.flat_addition()), (5, 6, 0));
    let q = parse_query("3+1").ok().unwrap();
    assert_eq!((q.amount(), q.sides(), q.flat_addition()), (3, 6, 1));
    assert_eq!(parse_query("abc").err().unwrap().message, "Unable to parse query.");
    assert!(parse_query("1d6+2+3").is_err());
}

#[test]
fn query_text_reads_back_to_the_same_query() {
    let q = ParsedRollQuery::new(Some(7), Some(12), Some(4));
    let text = q.as_button_callback_query_string();
    let back = parse_query(text.trim_start_matches("roll-dice_")).ok().unwrap();
    assert_eq!((back.amount(), back.sides(), back.flat_addition()), (7, 12, 4));
}

#[test]
fn roll_report_marks_successes_and_crits() {
    let text = roll_report(3, 6, 0, true, 0, &vec![6, 4, 1]);
    assert_eq!(text, "3d6 — **__6__**, **4**, 1\n**2** Successes.");
    let text = roll_report(2, 6, 0, true, 0, &vec![1, 2]);
    assert_eq!(text, "2d6 — **4**, 2\n**1** Success.");
    let text = roll_report(3, 6, 0, true, 0, &vec![6, 6, 6]);
    assert_eq!(text, "3d6 — **__6__**, **__6__**, **__6__**\n**3** Successes. **(CRIT)**");
    let text = roll_report(2, 10, 0, true, 0, &vec![9, 3]);
    assert_eq!(text, "2d10 — **9**, 3\n**1 Success.**");
}

#[test]
fn roll_report_lists_curses() {
    let text = roll_report(2, 6, 0, false, 5, &vec![3, 2]);
    assert_eq!(
        text,
        "1d6 — 3, 2\n**0** Successes.\n**Applied Curses:** Skewed Rolls to Low, Increased Success Threshold, Reduced Dice Count"
    );
}

#[test]
fn execute_with_super_luck_rolls_every_die() {
    let mut q = ParsedRollQuery::new(Some(4), Some(6), None);
    let text = q.execute(true);
    assert!(text.starts_with("4d6 — "));
    assert!(!text.contains("Applied Curses"));
    assert_eq!(q.amount(), 4);
}

#[test]
fn long_messages_are_split_at_line_breaks() {
    let line = "a".repeat(1500);
    let message = format!("{}\n{}\nshort", line, line);
    let chunks = split_message_at_linebreaks(&message);
    assert!(chunks.len() >= 2);
    for c in &chunks {
        assert!(!c.is_empty() && c.len() <= MAX_MESSAGE_LENGTH);
    }
    assert_eq!(chunks.concat(), format!("{}\n", message));
}

#[test]
fn overlong_lines_are_cut_into_pieces() {
    let parts = split_long_line("abcdefg", 3);
    assert_eq!(parts, vec!["abc".to_string(), "def".to_string(), "g".to_string()]);
    let parts = split_long_line("ääää", 4);
    assert_eq!(parts, vec!["ää".to_string(), "ää".to_string()]);
    let parts = split_long_line("abc", 1);
    assert_eq!(parts, vec!["a".to_string(), "b".to_string(), "c".to_string()]);
    let parts = split_long_line("äb", 2);
    assert_eq!(parts, vec!["ä".to_string(), "b".to_string()]);
}

#[test]
fn short_messages_stay_whole() {
    assert_eq!(split_message_at_linebreaks("hello\nworld"), vec!["hello\nworld\n".to_string()]);
}

#[test]
fn only_one_user_has_super_luck() {
    assert!(has_super_luck(SUPER_LUCK_USER_ID));
    assert!(has_super_luck(307627785818603523));
    assert!(!has_super_luck(1));
}

#[test]
fn flat_additions_are_added_to_the_total() {
    let text = roll_report(2, 6, 3, true, 0, &vec![6, 2]);
    assert_eq!(text, "2d6 — **__6__**, 2+3 = 11\n**1** Success.");
    let text = roll_report(1, 6, 5, true, 0, &vec![1]);
    assert_eq!(text, "1d6 — **4**+5 = 9\n**1** Success.");
    let mut q = parse_query("2d6+4").ok().unwrap();
    let text = q.execute(true);
    assert!(text.starts_with("2d6 — "));
    assert!(text.contains("+4 = "));
}
