use clockradio::background::{background_char, generate_animated_background, Sky};

const CALM: Sky = Sky { lamp_bright: true, wind_offset: 0 };
const DIM: Sky = Sky { lamp_bright: false, wind_offset: 0 };

fn cell(lines: &[String], x: usize, y: usize) -> char {
    lines[y].chars().nth(x).unwrap()
}

#[test]
fn same_inputs_give_the_same_background() {
    for frame in [0u32, 1, 2, 3, 17, 1000, u32::MAX] {
        for sky in [CALM, DIM, Sky { lamp_bright: true, wind_offset: -2 }] {
            let first = generate_animated_background(frame, 80, 24, sky);
            let second = generate_animated_background(frame, 80, 24, sky);
            assert_eq!(first, second);
        }
    }
}

#[test]
fn background_fills_the_screen() {
    for (width, height) in [(80u16, 24u16), (1, 1), (200, 60), (7, 3), (0, 5), (5, 0)] {
        let lines = generate_animated_background(42, width, height, CALM);
        assert_eq!(lines.len(), height as usize);
        for line in &lines {
            assert_eq!(line.chars().count(), width as usize);
        }
    }
}

#[test]
fn lamp_pole_stands_in_the_third_row_from_the_bottom() {
    let lines = generate_animated_background(0, 20, 12, CALM);
    assert_eq!(lines[9], "     │              ");
}

#[test]
fn bright_lamp_has_a_glow_on_both_sides() {
    let lines = generate_animated_background(0, 20, 12, CALM);
    assert_eq!(lines[8], "   ··●··            ");
}

#[test]
fn dim_lamp_has_no_glow() {
    let lines = generate_animated_background(0, 20, 12, DIM);
    assert_eq!(lines[8], "     ○              ");
}

#[test]
fn rows_around_the_lamp_are_empty() {
    for frame in 0..200u32 {
        let lines = generate_animated_background(frame, 40, 12, CALM);
        for y in [7usize, 10, 11] {
            assert_eq!(lines[y], " ".repeat(40), "row {y} of frame {frame}");
        }
    }
}

#[test]
fn raindrops_fall_where_the_formula_puts_them() {
    // frame 0, no wind: slot of (13, 1) is (13 + 1) % 7 = 0 and 13 % 13 = 0
    let lines = generate_animated_background(0, 20, 12, CALM);
    assert_eq!(cell(&lines, 13, 1), '·');
    // slot of (17, 5) is (17 + 5) % 7 = 1 and 17 % 17 = 0
    assert_eq!(cell(&lines, 17, 5), '`');
    // slot of (0, 0) is 0 and 0 % 13 = 0
    assert_eq!(cell(&lines, 0, 0), '·');
    // slot of (0, 1) is 1 and 0 % 17 = 0
    assert_eq!(cell(&lines, 0, 1), '`');
    // slot of (13, 2) is 1, but 13 % 17 is not 0
    assert_eq!(cell(&lines, 13, 2), ' ');
    assert_eq!(
        lines,
        vec![
            "·                   ",
            "`            ·      ",
            "                    ",
            "                    ",
            "                    ",
            "                 `  ",
            "                    ",
            "                    ",
            "   ··●··            ",
            "     │              ",
            "                    ",
            "                    ",
        ]
    );
}

#[test]
fn rain_moves_with_the_frame_counter() {
    // frame 26: drift of (0, y) is y + 8, and (26 + 0) % 13 = 0
    let lines = generate_animated_background(26, 20, 20, CALM);
    assert_eq!(cell(&lines, 0, 6), '·');
    assert_eq!(cell(&lines, 0, 13), '·');
    assert_eq!(cell(&lines, 0, 0), ' ');
    // frame 34: drift of (0, y) is y + 11, and (34 + 0) % 17 = 0
    let lines = generate_animated_background(34, 20, 20, CALM);
    assert_eq!(cell(&lines, 0, 4), '`');
    assert_eq!(cell(&lines, 0, 3), ' ');
}

#[test]
fn wind_shifts_the_rain_sideways() {
    let windy = Sky { lamp_bright: true, wind_offset: 2 };
    // drift of (13, 6) is 13 + 6 + 2 = 21
    assert_eq!(background_char(0, 13, 6, 20, windy), '·');
    assert_eq!(background_char(0, 13, 6, 20, CALM), ' ');
    let against = Sky { lamp_bright: true, wind_offset: -2 };
    // drift of (13, 3) is 13 + 3 - 2 = 14
    assert_eq!(background_char(0, 13, 3, 20, against), '·');
    assert_eq!(background_char(0, 13, 3, 20, CALM), ' ');
}

#[test]
fn wind_against_the_drift_gives_no_streaks() {
    // drift of (0, 0) is -7: slot 0
    assert_eq!(background_char(0, 0, 0, 20, Sky { lamp_bright: true, wind_offset: -7 }), '·');
    // drift of (0, 0) is -6: a negative slot, which is neither 0 nor 1
    assert_eq!(background_char(0, 0, 0, 20, Sky { lamp_bright: true, wind_offset: -6 }), ' ');
    // drift of (0, 1) is -13: slot -6, although -13 is 1 above a multiple of 7
    assert_eq!(background_char(0, 0, 1, 20, Sky { lamp_bright: true, wind_offset: -14 }), ' ');
    assert_eq!(
        background_char(0, 0, 0, 20, Sky { lamp_bright: true, wind_offset: i32::MIN }),
        ' '
    );
}

#[test]
fn late_frames_do_not_overflow() {
    let lines = generate_animated_background(u32::MAX, 300, 30, CALM);
    assert_eq!(lines.len(), 30);
    // frame / 3 is 1431655765, which is 1 above a multiple of 7, so the slot
    // of (0, 0) is 1; the frame itself is a multiple of 17
    assert_eq!(1431655765u64 % 7, 1);
    assert_eq!(4294967295u64 % 17, 0);
    assert_eq!(cell(&lines, 0, 0), '`');
    // the slot of (5, 1) is 0, and frame + 5 is a multiple of 13 only when
    // it is not wrapped around
    assert_eq!(4294967300u64 % 13, 0);
    assert_eq!(cell(&lines, 5, 1), '·');
    let far = Sky { lamp_bright: false, wind_offset: i32::MAX };
    assert_eq!(generate_animated_background(u32::MAX, 65535, 1, far).len(), 1);
}

#[test]
fn small_screens_show_less_of_the_scene() {
    assert!(generate_animated_background(5, 10, 0, CALM).is_empty());
    assert_eq!(generate_animated_background(5, 10, 1, CALM), vec!["          "]);
    assert_eq!(generate_animated_background(5, 10, 2, CALM), vec!["          "; 2]);
    assert_eq!(
        generate_animated_background(5, 10, 3, CALM),
        vec!["     │    ", "          ", "          "]
    );
    assert_eq!(
        generate_animated_background(5, 10, 4, CALM),
        vec!["   ··●··  ", "     │    ", "          ", "          "]
    );
    assert_eq!(
        generate_animated_background(0, 10, 5, CALM),
        vec!["          ", "   ··●··  ", "     │    ", "          ", "          "]
    );
    let six = generate_animated_background(0, 10, 6, CALM);
    assert_eq!(six[0], "·         ");
    assert_eq!(six[1], "          ");
}

#[test]
fn narrow_screens_cut_the_lamp_off() {
    assert_eq!(
        generate_animated_background(1, 5, 6, CALM),
        vec!["     ", "     ", "   ··", "     ", "     ", "     "]
    );
    let lines = generate_animated_background(1, 6, 6, DIM);
    assert_eq!(lines[2], "     ○");
    assert_eq!(lines[3], "     │");
}

#[test]
fn single_cells_agree_with_whole_lines() {
    let sky = Sky { lamp_bright: true, wind_offset: 1 };
    for frame in [0u32, 7, 39, 221, 4096] {
        let lines = generate_animated_background(frame, 50, 20, sky);
        for y in 0..20u16 {
            for x in 0..50u16 {
                assert_eq!(
                    cell(&lines, x as usize, y as usize),
                    background_char(frame, x, y, 20, sky)
                );
            }
        }
    }
}
