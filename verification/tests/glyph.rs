use clockradio::glyph::{get_ascii_digit, GLYPH_HEIGHT, GLYPH_WIDTH};

fn width(row: &str) -> usize {
    row.chars().count()
}

#[test]
fn every_clock_character_is_seven_by_seven() {
    for c in "0123456789:".chars() {
        let rows = get_ascii_digit(c);
        assert_eq!(rows.len(), 7, "rows of {c:?}");
        for row in &rows {
            assert_eq!(width(row), 7, "row {row:?} of {c:?}");
        }
    }
}

#[test]
fn glyph_dimensions_are_the_named_constants() {
    assert_eq!(GLYPH_HEIGHT, 7);
    assert_eq!(GLYPH_WIDTH, 7);
}

#[test]
fn every_cell_is_ink_or_gap() {
    for c in "0123456789:".chars() {
        for row in get_ascii_digit(c) {
            assert!(row.chars().all(|cell| cell == '█' || cell == ' '));
        }
    }
}

#[test]
fn unsupported_characters_are_blank() {
    for c in ['x', ' ', '-', 'A', '/', ';', '٣', '\n'] {
        assert_eq!(get_ascii_digit(c), vec!["       "; 7], "glyph of {c:?}");
    }
}

#[test]
fn digits_and_colon_are_not_blank() {
    for c in "0123456789:".chars() {
        assert!(get_ascii_digit(c).iter().any(|row| row.contains('█')));
    }
}

#[test]
fn all_drawings_differ() {
    let all: Vec<Vec<&str>> = "0123456789:".chars().map(get_ascii_digit).collect();
    for i in 0..all.len() {
        for j in 0..i {
            assert_ne!(all[i], all[j]);
        }
    }
}

#[test]
fn zero_is_a_box() {
    assert_eq!(
        get_ascii_digit('0'),
        vec![
            "███████",
            "██   ██",
            "██   ██",
            "██   ██",
            "██   ██",
            "██   ██",
            "███████",
        ]
    );
}

#[test]
fn one_has_a_flag_and_a_foot() {
    assert_eq!(
        get_ascii_digit('1'),
        vec![
            "   ██  ",
            "  ███  ",
            "   ██  ",
            "   ██  ",
            "   ██  ",
            "   ██  ",
            "███████",
        ]
    );
}

#[test]
fn two_turns_from_right_to_left() {
    assert_eq!(
        get_ascii_digit('2'),
        vec![
            "███████",
            "     ██",
            "     ██",
            "███████",
            "██     ",
            "██     ",
            "███████",
        ]
    );
}

#[test]
fn four_and_seven_keep_to_the_right_edge() {
    assert_eq!(
        get_ascii_digit('4'),
        vec![
            "██   ██",
            "██   ██",
            "██   ██",
            "███████",
            "     ██",
            "     ██",
            "     ██",
        ]
    );
    assert_eq!(
        get_ascii_digit('7'),
        vec![
            "███████",
            "     ██",
            "     ██",
            "     ██",
            "     ██",
            "     ██",
            "     ██",
        ]
    );
}

#[test]
fn colon_is_two_dots() {
    assert_eq!(
        get_ascii_digit(':'),
        vec![
            "       ",
            "   ██  ",
            "   ██  ",
            "       ",
            "   ██  ",
            "   ██  ",
            "       ",
        ]
    );
}

#[test]
fn remaining_digits_match_their_strokes() {
    let full = "███████";
    let sides = "██   ██";
    let right = "     ██";
    let left = "██     ";
    assert_eq!(get_ascii_digit('3'), vec![full, right, right, full, right, right, full]);
    assert_eq!(get_ascii_digit('5'), vec![full, left, left, full, right, right, full]);
    assert_eq!(get_ascii_digit('6'), vec![full, left, left, full, sides, sides, full]);
    assert_eq!(get_ascii_digit('8'), vec![full, sides, sides, full, sides, sides, full]);
    assert_eq!(get_ascii_digit('9'), vec![full, sides, sides, full, right, right, full]);
}
