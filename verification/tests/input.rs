use tictactoe::input::{decode_move, nth_char_as_num, parse_move, strip_line_end};

#[test]
fn nth_char_as_num_reads_digits() {
    let text = String::from("1 3");
    assert_eq!(nth_char_as_num(&text, 0), 1);
    assert_eq!(nth_char_as_num(&text, 2), 3);
    let all = String::from("0123456789");
    for i in 0..10usize {
        assert_eq!(nth_char_as_num(&all, i), i as i8);
    }
}

#[test]
fn nth_char_as_num_counts_characters() {
    let text = String::from("\u{e9}\u{4e2d}7");
    assert_eq!(nth_char_as_num(&text, 2), 7);
}

#[test]
fn strip_line_end_removes_line_feed_then_carriage_return() {
    assert_eq!(strip_line_end("1 2\n"), "1 2");
    assert_eq!(strip_line_end("1 2\r\n"), "1 2");
    assert_eq!(strip_line_end("1 2\r"), "1 2");
    assert_eq!(strip_line_end("1 2"), "1 2");
    assert_eq!(strip_line_end("1 2\n\n"), "1 2\n");
    assert_eq!(strip_line_end("1 2\n\r"), "1 2\n");
    assert_eq!(strip_line_end("1 2\r\r\n"), "1 2\r");
    assert_eq!(strip_line_end("\n"), "");
    assert_eq!(strip_line_end("\r\n"), "");
    assert_eq!(strip_line_end(""), "");
}

#[test]
fn decode_move_reads_matched_text() {
    assert_eq!(decode_move(&String::from("1 3"), Some(true)), Some((0, 2)));
    assert_eq!(decode_move(&String::from("3\t2"), Some(true)), Some((2, 1)));
    assert_eq!(decode_move(&String::from("1 1"), Some(true)), Some((0, 0)));
    assert_eq!(decode_move(&String::from("3 3"), Some(true)), Some((2, 2)));
}

#[test]
fn decode_move_refuses_without_a_match() {
    assert_eq!(decode_move(&String::from("1 3"), Some(false)), None);
    assert_eq!(decode_move(&String::from("1 3"), None), None);
    assert_eq!(decode_move(&String::from("1"), Some(true)), None);
    assert_eq!(decode_move(&String::from("a b"), Some(true)), None);
    assert_eq!(decode_move(&String::from("1 b"), Some(true)), None);
    assert_eq!(decode_move(&String::from("9 0"), Some(true)), None);
    assert_eq!(decode_move(&String::from("0 1"), Some(true)), None);
    assert_eq!(decode_move(&String::from("1 4"), Some(true)), None);
    assert_eq!(decode_move(&String::from(""), Some(true)), None);
}

#[test]
fn parse_move_accepts_two_digits() {
    for x in 1..=3i8 {
        for y in 1..=3i8 {
            let line = format!("{} {}\n", x, y);
            assert_eq!(parse_move(&line), Some((x - 1, y - 1)));
        }
    }
}

#[test]
fn parse_move_strips_the_line_end() {
    assert_eq!(parse_move("1 2"), Some((0, 1)));
    assert_eq!(parse_move("1 2\n"), Some((0, 1)));
    assert_eq!(parse_move("1 2\r\n"), Some((0, 1)));
    assert_eq!(parse_move("3 1\r"), Some((2, 0)));
    assert_eq!(parse_move("2\t3\n"), Some((1, 2)));
    assert_eq!(parse_move("2\u{a0}2\n"), Some((1, 1)));
}

#[test]
fn parse_move_refuses_surrounding_white_space() {
    assert_eq!(parse_move(" 3 3\n"), None);
    assert_eq!(parse_move("3 3 \n"), None);
    assert_eq!(parse_move("  3 1  \n"), None);
    assert_eq!(parse_move("\t2 2\t\r\n"), None);
    assert_eq!(parse_move("1 2\n\n"), None);
    assert_eq!(parse_move("1 2\r\r\n"), None);
}

#[test]
fn parse_move_refuses_other_input() {
    assert_eq!(parse_move(""), None);
    assert_eq!(parse_move("\n"), None);
    assert_eq!(parse_move("12\n"), None);
    assert_eq!(parse_move("1  2\n"), None);
    assert_eq!(parse_move("0 1\n"), None);
    assert_eq!(parse_move("4 1\n"), None);
    assert_eq!(parse_move("1 4\n"), None);
    assert_eq!(parse_move("1 2 3\n"), None);
    assert_eq!(parse_move("a b\n"), None);
    assert_eq!(parse_move("1,2\n"), None);
    assert_eq!(parse_move("x1 2\n"), None);
    assert_eq!(parse_move("1 2x\n"), None);
    assert_eq!(parse_move("1 2\nx"), None);
}
