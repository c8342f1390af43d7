use net_runner::matrix_backend::{
    generate_path, handle_enter_key, handle_key_event, handle_mouse_event, middle_path, nth_free,
    KeyCode, MouseEvent, MouseEventKind,
};
use net_runner::matrix_mode::{
    format_path_line, handle_input, hex_byte, hex_matrix, initial_state, matrix_cell,
    parse_data_to_matrix, round_over, AppExit, InputEvent, MatrixState, Rect, UiColor,
};

fn sample_data() -> Vec<u8> {
    (0u8..30).map(|i| i * 7).collect()
}

fn check_long_path(p: &[[u8; 3]]) {
    assert_eq!(p.len(), 5);
    assert_eq!(p[0][0], 0);
    for i in 0..5 {
        assert!(p[i][0] < 5 && p[i][1] < 5);
        assert_eq!(p[i][2], 0);
        for j in 0..i {
            assert!(!(p[i][0] == p[j][0] && p[i][1] == p[j][1]), "cell repeats");
        }
        if i >= 1 {
            if i % 2 == 1 {
                assert_eq!(p[i][1], p[i - 1][1]);
            } else {
                assert_eq!(p[i][0], p[i - 1][0]);
            }
        }
    }
}

fn check_middle_path(p2: &[[u8; 3]], p3: &[[u8; 3]]) {
    assert_eq!(p2.len(), 3);
    let ok = (0..3).any(|pick| {
        let a = p3[pick];
        let b = p3[pick + 2];
        p2[0] == a
            && p2[2] == b
            && (p2[1] == [a[0], b[1], 0] || p2[1] == [b[0], a[1], 0])
    });
    assert!(ok, "middle path does not span two long-path steps");
}

fn check_short_path(p1: &[[u8; 3]]) {
    assert_eq!(p1.len(), 2);
    assert_eq!(p1[0][0], 0);
    assert!(p1[0][1] < 5);
    assert!(p1[1][0] >= 1 && p1[1][0] < 5);
    assert_eq!(p1[1][1], p1[0][1]);
    assert_eq!(p1[0][2], 0);
    assert_eq!(p1[1][2], 0);
}

/// A state with fixed paths, for scenarios that must not depend on chance.
fn fixed_state() -> MatrixState {
    let mut s = initial_state(&sample_data());
    s.path1 = vec![[0, 1, 0], [2, 1, 0]];
    s.path2 = vec![[0, 0, 0], [0, 3, 0], [4, 3, 0]];
    s.path3 = vec![[0, 2, 0], [3, 2, 0], [3, 4, 0], [1, 4, 0], [1, 0, 0]];
    s
}

#[test]
fn parse_short_data_pads_with_zero() {
    let m = parse_data_to_matrix(&[1, 2, 3, 4, 5, 6, 7]);
    assert_eq!(m[0], [1, 2, 3, 4, 5]);
    assert_eq!(m[1], [6, 7, 0, 0, 0]);
    assert_eq!(m[4], [0, 0, 0, 0, 0]);
}

#[test]
fn parse_long_data_takes_first_25() {
    let data = sample_data();
    let m = parse_data_to_matrix(&data);
    for i in 0..25 {
        assert_eq!(m[i / 5][i % 5], data[i]);
    }
}

#[test]
fn parse_empty_data() {
    assert_eq!(parse_data_to_matrix(&[]), [[0u8; 5]; 5]);
}

#[test]
fn hex_byte_is_two_upper_digits() {
    assert_eq!(hex_byte(0x00), "00");
    assert_eq!(hex_byte(0x0F), "0F");
    assert_eq!(hex_byte(0xAB), "AB");
    assert_eq!(hex_byte(0xFF), "FF");
    for b in 0..=255u8 {
        assert_eq!(hex_byte(b), format!("{:02X}", b));
    }
}

#[test]
fn hex_matrix_matches_cells() {
    let m = parse_data_to_matrix(&sample_data());
    let h = hex_matrix(&m);
    for r in 0..5 {
        for c in 0..5 {
            assert_eq!(h[r][c], format!("{:02X}", m[r][c]));
        }
    }
}

#[test]
fn nth_free_counts_free_cells() {
    let line = [true, false, true, false, false];
    assert_eq!(nth_free(line, 0), 1);
    assert_eq!(nth_free(line, 1), 3);
    assert_eq!(nth_free(line, 2), 4);
}

#[test]
fn middle_path_takes_corner() {
    let p3 = vec![[0, 2, 0], [3, 2, 0], [3, 4, 0], [1, 4, 0], [1, 0, 0]];
    assert_eq!(middle_path(&p3, 1, true), vec![[3, 2, 0], [3, 4, 0], [1, 4, 0]]);
    assert_eq!(middle_path(&p3, 0, true), vec![[0, 2, 0], [0, 4, 0], [3, 4, 0]]);
    assert_eq!(middle_path(&p3, 0, false), vec![[0, 2, 0], [3, 2, 0], [3, 4, 0]]);
}

#[test]
fn generated_paths_have_their_shapes() {
    for _ in 0..200 {
        let mut s = fixed_state();
        let before_cells = s.cells;
        generate_path(&mut s);
        check_long_path(&s.path3);
        check_middle_path(&s.path2, &s.path3);
        check_short_path(&s.path1);
        assert_eq!(s.cells, before_cells);
        assert_eq!(s.path1_tracking, 0);
    }
}

#[test]
fn initial_state_is_a_fresh_round() {
    let data = sample_data();
    let s = initial_state(&data);
    assert_eq!(s.cells, parse_data_to_matrix(&data));
    for r in 0..5 {
        for c in 0..5 {
            assert_eq!(s.hex_cells[r][c], format!("{:02X}", s.cells[r][c]));
            assert!(!s.visited_cells[r][c]);
        }
    }
    for b in s.bufor.iter() {
        assert_eq!(b, "XX");
    }
    assert_eq!((s.path1_tracking, s.path2_tracking, s.path3_tracking), (0, 0, 0));
    assert_eq!((s.cursor_x, s.cursor_y), (0, 0));
    assert!(s.matrix_area.is_none());
    assert!(s.row_col);
    assert_eq!((s.active_row, s.active_col), (0, 0));
    check_long_path(&s.path3);
    check_middle_path(&s.path2, &s.path3);
    check_short_path(&s.path1);
}

#[test]
fn pick_matching_cell_advances_path() {
    let mut s = fixed_state();
    // The cursor cell (0, 1) is the first step of path 1.
    s.cursor_x = 1;
    s.cursor_y = 0;
    handle_enter_key(&mut s);
    assert_eq!(s.path1_tracking, 1);
    assert_eq!(s.path1[0], [0, 1, 1]);
    assert!(s.visited_cells[0][1]);
    assert!(!s.row_col);
    assert_eq!((s.active_row, s.active_col), (0, 1));
}

#[test]
fn pick_by_text_not_by_position() {
    let mut s = fixed_state();
    // Give cell (4, 4) the same byte as the first step of path 1.
    s.cells[4][4] = s.cells[0][1];
    s.hex_cells[4][4] = s.hex_cells[0][1].clone();
    s.cursor_x = 4;
    s.cursor_y = 4;
    handle_enter_key(&mut s);
    assert_eq!(s.path1_tracking, 1);
    assert_eq!(s.path1[0][2], 1);
}

#[test]
fn miss_on_first_step_keeps_waiting() {
    let mut s = fixed_state();
    s.cursor_x = 4;
    s.cursor_y = 4; // byte 24*7 matches no first step
    handle_enter_key(&mut s);
    assert_eq!(s.path1_tracking, 0);
    assert_eq!(s.path2_tracking, 0);
    assert_eq!(s.path3_tracking, 0);
    assert!(s.visited_cells[4][4]);
}

#[test]
fn miss_after_first_step_fails_path() {
    let mut s = fixed_state();
    s.path1_tracking = 1;
    s.path1[0][2] = 1;
    s.cursor_x = 4;
    s.cursor_y = 4;
    handle_enter_key(&mut s);
    assert_eq!(s.path1_tracking, -1);
    assert_eq!(s.path1[1][2], 0);
}

#[test]
fn last_step_finishes_path() {
    let mut s = fixed_state();
    s.path1_tracking = 1;
    s.path1[0][2] = 1;
    s.cursor_x = 1;
    s.cursor_y = 2;
    handle_enter_key(&mut s);
    assert_eq!(s.path1_tracking, -2);
    assert_eq!(s.path1[1], [2, 1, 1]);
}

#[test]
fn picked_cell_gives_no_progress() {
    let mut s = fixed_state();
    s.cursor_x = 1;
    s.cursor_y = 0;
    s.visited_cells[0][1] = true;
    handle_enter_key(&mut s);
    assert_eq!(s.path1_tracking, 0);
    assert_eq!(s.path1[0][2], 0);
}

#[test]
fn finished_and_failed_paths_stay() {
    let mut s = fixed_state();
    s.path1_tracking = -2;
    s.path2_tracking = -1;
    s.cursor_x = 1;
    s.cursor_y = 0;
    handle_enter_key(&mut s);
    assert_eq!(s.path1_tracking, -2);
    assert_eq!(s.path2_tracking, -1);
}

#[test]
fn arrow_keys_follow_active_line() {
    let mut s = fixed_state();
    s.row_col = true;
    handle_key_event(KeyCode::Right, &mut s);
    assert_eq!((s.cursor_x, s.cursor_y), (1, 0));
    handle_key_event(KeyCode::Down, &mut s);
    assert_eq!((s.cursor_x, s.cursor_y), (1, 0));
    handle_key_event(KeyCode::Left, &mut s);
    handle_key_event(KeyCode::Left, &mut s);
    assert_eq!((s.cursor_x, s.cursor_y), (0, 0));
    s.row_col = false;
    handle_key_event(KeyCode::Up, &mut s);
    assert_eq!(s.cursor_y, 0);
    for _ in 0..10 {
        handle_key_event(KeyCode::Down, &mut s);
    }
    assert_eq!(s.cursor_y, 4);
    handle_key_event(KeyCode::Right, &mut s);
    assert_eq!(s.cursor_x, 0);
    handle_key_event(KeyCode::Char('x'), &mut s);
    assert_eq!((s.cursor_x, s.cursor_y), (0, 4));
}

#[test]
fn mouse_press_moves_cursor() {
    let mut s = fixed_state();
    let area = Rect { x: 10, y: 5, width: 20, height: 9 };
    let press = MouseEvent { kind: MouseEventKind::Down, column: 10 + 3 * 3 + 2, row: 5 + 1 + 2 };
    handle_mouse_event(press, area, &mut s);
    assert_eq!((s.cursor_x, s.cursor_y), (3, 2));
}

#[test]
fn mouse_press_outside_or_not_pressed_does_nothing() {
    let mut s = fixed_state();
    let area = Rect { x: 10, y: 5, width: 20, height: 9 };
    let outside = MouseEvent { kind: MouseEventKind::Down, column: 9, row: 7 };
    handle_mouse_event(outside, area, &mut s);
    assert_eq!((s.cursor_x, s.cursor_y), (0, 0));
    let right_edge = MouseEvent { kind: MouseEventKind::Down, column: 30, row: 7 };
    handle_mouse_event(right_edge, area, &mut s);
    assert_eq!((s.cursor_x, s.cursor_y), (0, 0));
    let past_cells = MouseEvent { kind: MouseEventKind::Down, column: 26, row: 7 };
    handle_mouse_event(past_cells, area, &mut s);
    assert_eq!((s.cursor_x, s.cursor_y), (0, 0));
    let moved = MouseEvent { kind: MouseEventKind::Other, column: 13, row: 7 };
    handle_mouse_event(moved, area, &mut s);
    assert_eq!((s.cursor_x, s.cursor_y), (0, 0));
}

#[test]
fn path_line_lists_bytes() {
    let m = parse_data_to_matrix(&sample_data());
    let path = vec![[0u8, 1u8, 1u8], [2, 1, 0]];
    let spans = format_path_line("PATH 1", &path, &m, 1);
    assert_eq!(spans.len(), 3);
    assert_eq!(spans[0].text, "PATH 1: ");
    assert_eq!(spans[0].color, UiColor::Cyan);
    assert_eq!(spans[1].text, format!("{:02X} ", m[0][1]));
    assert_eq!(spans[1].color, UiColor::LightGreen);
    assert_eq!(spans[2].text, format!("{:02X} ", m[2][1]));
    assert_eq!(spans[2].color, UiColor::LightYellow);
}

#[test]
fn path_line_failed_is_red() {
    let m = parse_data_to_matrix(&sample_data());
    let path = vec![[0u8, 1u8, 1u8], [2, 1, 0]];
    let spans = format_path_line("PATH 2", &path, &m, -1);
    assert_eq!(spans.len(), 3);
    assert!(spans[1..].iter().all(|s| s.color == UiColor::Red));
}

#[test]
fn path_line_finished() {
    let m = parse_data_to_matrix(&sample_data());
    let path = vec![[0u8, 1u8, 1u8], [2, 1, 1]];
    let spans = format_path_line("PATH 3", &path, &m, -2);
    assert_eq!(spans.len(), 2);
    assert_eq!(spans[1].text, "FINISHED");
    assert_eq!(spans[1].color, UiColor::LightGreen);
    let empty: Vec<[u8; 3]> = Vec::new();
    assert_eq!(format_path_line("PATH 3", &empty, &m, -2).len(), 1);
}

#[test]
fn matrix_cell_styles() {
    let mut s = fixed_state();
    s.row_col = true;
    s.active_row = 2;
    s.cursor_x = 3;
    s.cursor_y = 2;
    s.visited_cells[2][4] = true;
    let plain = matrix_cell(&s, 0, 0);
    assert_eq!(plain.text, format!(" {} ", s.hex_cells[0][0]));
    assert_eq!((plain.fg, plain.bg, plain.bold), (UiColor::Cyan, None, false));
    let line = matrix_cell(&s, 0, 2);
    assert_eq!((line.fg, line.bg, line.bold), (UiColor::Black, Some(UiColor::Yellow), true));
    let cursor = matrix_cell(&s, 3, 2);
    assert_eq!((cursor.fg, cursor.bg, cursor.bold), (UiColor::Black, Some(UiColor::LightCyan), true));
    let picked = matrix_cell(&s, 4, 2);
    assert_eq!((picked.fg, picked.bg, picked.bold), (UiColor::Gray, Some(UiColor::Yellow), true));
    s.row_col = false;
    s.active_col = 0;
    let col = matrix_cell(&s, 0, 4);
    assert_eq!((col.fg, col.bg, col.bold), (UiColor::Black, Some(UiColor::Yellow), true));
}

#[test]
fn round_over_conditions() {
    let mut s = fixed_state();
    assert!(!round_over(&s, 0));
    assert!(round_over(&s, 7));
    s.path1_tracking = -1;
    s.path2_tracking = -2;
    assert!(!round_over(&s, 3));
    s.path3_tracking = -1;
    assert!(round_over(&s, 3));
}

#[test]
fn input_q_quits() {
    let mut s = fixed_state();
    let mut counter = 0usize;
    let r = handle_input(&mut s, &mut counter, InputEvent::Key { code: KeyCode::Char('q'), pressed: true });
    assert!(matches!(r, Some(AppExit::Quit)));
    assert_eq!(counter, 0);
}

#[test]
fn input_release_is_ignored() {
    let mut s = fixed_state();
    let mut counter = 0usize;
    let r = handle_input(&mut s, &mut counter, InputEvent::Key { code: KeyCode::Char('q'), pressed: false });
    assert!(r.is_none());
    let r = handle_input(&mut s, &mut counter, InputEvent::Key { code: KeyCode::Enter, pressed: false });
    assert!(r.is_none());
    assert_eq!(counter, 0);
    assert!(!s.visited_cells[0][0]);
}

#[test]
fn input_pick_fills_buffer() {
    let mut s = fixed_state();
    s.cursor_x = 1;
    let mut counter = 0usize;
    let r = handle_input(&mut s, &mut counter, InputEvent::Key { code: KeyCode::Char(' '), pressed: true });
    assert!(r.is_none());
    assert_eq!(counter, 1);
    assert_eq!(s.bufor[0], s.hex_cells[0][1]);
    assert_eq!(s.bufor[1], "XX");
    assert_eq!(s.path1_tracking, 1);
    assert!(s.visited_cells[0][1]);
}

#[test]
fn input_pick_after_round_over_reloads() {
    let mut s = fixed_state();
    let mut counter = 7usize;
    let r = handle_input(&mut s, &mut counter, InputEvent::Key { code: KeyCode::Enter, pressed: true });
    assert!(matches!(r, Some(AppExit::Reload)));
    assert_eq!(counter, 7);
    s.path1_tracking = -1;
    s.path2_tracking = -1;
    s.path3_tracking = -2;
    let mut counter = 2usize;
    let r = handle_input(&mut s, &mut counter, InputEvent::Key { code: KeyCode::Enter, pressed: true });
    assert!(matches!(r, Some(AppExit::Reload)));
}

#[test]
fn seven_picks_end_the_round() {
    let mut s = fixed_state();
    let mut counter = 0usize;
    for i in 0..7 {
        s.cursor_x = i % 5;
        s.cursor_y = 3 + i / 5; // no first step lies in rows 3 and 4
        let r = handle_input(&mut s, &mut counter, InputEvent::Key { code: KeyCode::Enter, pressed: true });
        assert!(r.is_none());
    }
    assert_eq!(counter, 7);
    assert_eq!((s.path1_tracking, s.path2_tracking, s.path3_tracking), (0, 0, 0));
    assert_eq!(s.bufor[6], s.hex_cells[4][1]);
    assert!(round_over(&s, counter));
    let r = handle_input(&mut s, &mut counter, InputEvent::Key { code: KeyCode::Enter, pressed: true });
    assert!(matches!(r, Some(AppExit::Reload)));
}

#[test]
fn input_mouse_needs_drawn_matrix() {
    let mut s = fixed_state();
    let mut counter = 0usize;
    let press = MouseEvent { kind: MouseEventKind::Down, column: 7, row: 3 };
    let r = handle_input(&mut s, &mut counter, InputEvent::Mouse(press));
    assert!(r.is_none());
    assert_eq!((s.cursor_x, s.cursor_y), (0, 0));
    s.matrix_area = Some(Rect { x: 0, y: 0, width: 20, height: 9 });
    handle_input(&mut s, &mut counter, InputEvent::Mouse(press));
    assert_eq!((s.cursor_x, s.cursor_y), (2, 2));
}

#[test]
fn input_arrow_moves_cursor() {
    let mut s = fixed_state();
    let mut counter = 0usize;
    handle_input(&mut s, &mut counter, InputEvent::Key { code: KeyCode::Right, pressed: true });
    assert_eq!(s.cursor_x, 1);
    let r = handle_input(&mut s, &mut counter, InputEvent::Resize);
    assert!(r.is_none());
    assert_eq!(s.cursor_x, 1);
}

fn check_wf(s: &MatrixState, counter: usize) {
    assert!(s.cursor_x < 5 && s.cursor_y < 5);
    assert!(counter <= 7);
    for (path, t) in [(&s.path1, s.path1_tracking), (&s.path2, s.path2_tracking), (&s.path3, s.path3_tracking)] {
        assert!(t == -1 || t == -2 || (t >= 0 && (t as usize) < path.len()));
        for step in path.iter() {
            assert!(step[0] < 5 && step[1] < 5);
        }
        if t >= 0 {
            for (i, step) in path.iter().enumerate() {
                assert_eq!(step[2], if (i as i32) < t { 1 } else { 0 });
            }
        }
        if t == -2 {
            assert!(path.iter().all(|step| step[2] == 1));
        }
    }
}

#[test]
fn any_input_sequence_keeps_round_well_formed() {
    let mut seed: u32 = 12345;
    let mut next = move || {
        seed = seed.wrapping_mul(1103515245).wrapping_add(12345);
        (seed >> 16) as usize
    };
    for round in 0..20 {
        let mut data = sample_data();
        data[round % 25] = 0;
        let mut s = initial_state(&data);
        let mut counter = 0usize;
        check_wf(&s, counter);
        s.matrix_area = Some(Rect { x: 0, y: 0, width: 20, height: 9 });
        for _ in 0..60 {
            let event = match next() % 8 {
                0 => InputEvent::Key { code: KeyCode::Up, pressed: true },
                1 => InputEvent::Key { code: KeyCode::Down, pressed: true },
                2 => InputEvent::Key { code: KeyCode::Left, pressed: true },
                3 => InputEvent::Key { code: KeyCode::Right, pressed: true },
                4 | 5 => InputEvent::Key { code: KeyCode::Enter, pressed: true },
                6 => InputEvent::Mouse(MouseEvent {
                    kind: MouseEventKind::Down,
                    column: (next() % 20) as u16,
                    row: 1 + (next() % 8) as u16,
                }),
                _ => InputEvent::Resize,
            };
            let visited_before = s.visited_cells;
            let over_before = round_over(&s, counter);
            let r = handle_input(&mut s, &mut counter, event);
            check_wf(&s, counter);
            for y in 0..5 {
                for x in 0..5 {
                    assert!(!visited_before[y][x] || s.visited_cells[y][x]);
                }
            }
            if over_before {
                assert!(round_over(&s, counter));
            }
            let _ = format_path_line("PATH 1", &s.path1, &s.cells, s.path1_tracking);
            let _ = format_path_line("PATH 2", &s.path2, &s.cells, s.path2_tracking);
            let _ = format_path_line("PATH 3", &s.path3, &s.cells, s.path3_tracking);
            if matches!(r, Some(AppExit::Reload)) {
                assert!(over_before);
                break;
            }
        }
    }
}
