use clockradio::banner::{format_time_ascii, CELL_WIDTH};
use clockradio::glyph::{get_ascii_digit, GLYPH_WIDTH};

#[test]
fn banner_of_a_time_has_seven_lines_of_forty() {
    let lines = format_time_ascii("12:34");
    assert_eq!(lines.len(), 7);
    for line in &lines {
        assert_eq!(line.chars().count(), 5 * (GLYPH_WIDTH + 1));
        assert_eq!(line.chars().count(), 40);
    }
}

#[test]
fn banner_lines_are_spelled_out() {
    let lines = format_time_ascii("12:34");
    assert_eq!(
        lines,
        vec![
            "   ██   ███████         ███████ ██   ██ ",
            "  ███        ██    ██        ██ ██   ██ ",
            "   ██        ██    ██        ██ ██   ██ ",
            "   ██   ███████         ███████ ███████ ",
            "   ██   ██         ██        ██      ██ ",
            "   ██   ██         ██        ██      ██ ",
            "███████ ███████         ███████      ██ ",
        ]
    );
}

#[test]
fn banner_is_glyphs_side_by_side() {
    let text = "07:59";
    let lines = format_time_ascii(text);
    for (row, line) in lines.iter().enumerate() {
        let mut expected = String::new();
        for c in text.chars() {
            expected.push_str(get_ascii_digit(c)[row]);
            expected.push(' ');
        }
        assert_eq!(line, &expected);
    }
}

#[test]
fn banner_of_nothing_is_seven_empty_lines() {
    assert_eq!(format_time_ascii(""), vec![String::new(); 7]);
}

#[test]
fn banner_of_one_character_is_one_cell_wide() {
    let lines = format_time_ascii("8");
    assert_eq!(lines.len(), 7);
    assert_eq!(lines[0], "███████ ");
    assert_eq!(lines[1], "██   ██ ");
    assert_eq!(CELL_WIDTH, 8);
}

#[test]
fn banner_leaves_blank_cells_for_other_characters() {
    let lines = format_time_ascii("1é2");
    for line in &lines {
        assert_eq!(line.chars().count(), 24);
        let middle: String = line.chars().skip(8).take(8).collect();
        assert_eq!(middle, "        ");
    }
}

#[test]
fn banner_width_grows_by_eight_per_character() {
    for text in ["", "1", "12", "12:", "12:3", "12:34", "12:34:56"] {
        for line in format_time_ascii(text) {
            assert_eq!(line.chars().count(), text.chars().count() * 8);
        }
    }
}
