//! What holds of every round, whatever the player does.

use vstd::prelude::*;
use crate::matrix_backend::{
    cursor_visited, fresh_step, in_matrix, path_after_pick, path_hit, path_steps, pick_ok, picked,
    tracking_after_pick, KeyCode,
};
use crate::matrix_mode::{
    fresh_round, handled, hex_digit, hex_text, is_pick_key, marks_follow, path_line_ok, path_valid,
    round_over_spec, tracking_valid, AppExit, InputEvent, MatrixState,
};

verus! {

/// A fresh round is well formed and has no step picked yet.
pub proof fn lemma_fresh_round_wf(s: MatrixState, data: Seq<u8>)
    requires
        fresh_round(s, data),
    ensures
        s.wf(),
        s.marks_ok(),
{
    assert(fresh_step(s.path3@, 0) && fresh_step(s.path3@, 1) && fresh_step(s.path3@, 2));
    assert(fresh_step(s.path3@, 3) && fresh_step(s.path3@, 4));
}

/// In a well formed state the pick key can always be pressed.
pub proof fn lemma_wf_pick_ok(s: MatrixState)
    requires
        s.wf(),
    ensures
        pick_ok(s),
{
    if s.path1_tracking >= 0 {
        assert(in_matrix(s.path1@[s.path1_tracking as int]));
    }
    if s.path2_tracking >= 0 {
        assert(in_matrix(s.path2@[s.path2_tracking as int]));
    }
    if s.path3_tracking >= 0 {
        assert(in_matrix(s.path3@[s.path3_tracking as int]));
    }
}

/// One path after a pick: still in the matrix, tracking still meaningful,
/// marks still following the tracking value.
proof fn lemma_pick_keeps_path(s: MatrixState, path: Seq<[u8; 3]>, t: i32)
    requires
        s.cursor_x < 5,
        s.cursor_y < 5,
        path_valid(path),
        tracking_valid(path, t),
    ensures
        path_valid(path_after_pick(s, path, t)),
        tracking_valid(path_after_pick(s, path, t), tracking_after_pick(s, path, t)),
        path_after_pick(s, path, t).len() == path.len(),
        marks_follow(path, t) ==> marks_follow(path_after_pick(s, path, t), tracking_after_pick(s, path, t)),
{
    let p1 = path_after_pick(s, path, t);
    let t1 = tracking_after_pick(s, path, t);
    assert forall|i: int| 0 <= i < p1.len() implies #[trigger] in_matrix(p1[i]) by {
        assert(in_matrix(path[i]));
    }
    if marks_follow(path, t) {
        if t1 >= 0 {
            assert forall|i: int| 0 <= i < p1.len() implies #[trigger] p1[i][2] == (if i < t1 { 1u8 } else { 0u8 }) by {
                assert(path[i][2] == (if i < t { 1u8 } else { 0u8 }));
            }
        }
        if t1 == -2 && t >= 0 {
            assert forall|i: int| 0 <= i < p1.len() implies #[trigger] p1[i][2] == 1u8 by {
                assert(path[i][2] == (if i < t { 1u8 } else { 0u8 }));
            }
        }
    }
}

/// Every input keeps a round well formed, keeps the picked marks following
/// the tracking values, and never lets the buffer count pass seven.
pub proof fn lemma_input_keeps_wf(
    s0: MatrixState,
    c0: usize,
    event: InputEvent,
    s1: MatrixState,
    c1: usize,
    exit: Option<AppExit>,
)
    requires
        s0.wf(),
        c0 <= 7,
        handled(s0, c0, event, s1, c1, exit),
    ensures
        s1.wf(),
        s0.marks_ok() ==> s1.marks_ok(),
        c1 <= 7,
{
    match event {
        InputEvent::Key { code, pressed } => {
            if pressed && code != KeyCode::Char('q') && is_pick_key(code) && !round_over_spec(s0, c0) {
                lemma_pick_keeps_path(s0, s0.path1@, s0.path1_tracking);
                lemma_pick_keeps_path(s0, s0.path2@, s0.path2_tracking);
                lemma_pick_keeps_path(s0, s0.path3@, s0.path3_tracking);
            }
        },
        _ => {},
    }
}

/// A path that has finished or failed stays so; a running path either stays
/// at its step, moves on by one, fails or finishes.
pub proof fn lemma_paths_only_move_on(s: MatrixState, path: Seq<[u8; 3]>, t: i32)
    requires
        path_valid(path),
        tracking_valid(path, t),
    ensures
        t < 0 ==> tracking_after_pick(s, path, t) == t,
        t >= 0 ==> {
            let t1 = tracking_after_pick(s, path, t);
            t1 == t || t1 == t + 1 || t1 == -1 || t1 == -2
        },
{
}

/// Once a round is over it stays over, and the pick key then reloads.
pub proof fn lemma_round_over_stays(
    s0: MatrixState,
    c0: usize,
    event: InputEvent,
    s1: MatrixState,
    c1: usize,
    exit: Option<AppExit>,
)
    requires
        round_over_spec(s0, c0),
        handled(s0, c0, event, s1, c1, exit),
    ensures
        round_over_spec(s1, c1),
        (event matches InputEvent::Key { code, pressed } && pressed && is_pick_key(code))
            ==> exit == Some(AppExit::Reload),
{
}

/// A picked cell stays picked, whatever the input.
pub proof fn lemma_picks_stay(
    s0: MatrixState,
    c0: usize,
    event: InputEvent,
    s1: MatrixState,
    c1: usize,
    exit: Option<AppExit>,
    r: int,
    c: int,
)
    requires
        0 <= r < 5,
        0 <= c < 5,
        handled(s0, c0, event, s1, c1, exit),
        s0.visited_cells[r][c],
    ensures
        s1.visited_cells[r][c],
{
}

/// Two bytes with the same hexadecimal text are the same byte.
pub proof fn lemma_hex_text_injective(a: u8, b: u8)
    requires
        hex_text(a) == hex_text(b),
    ensures
        a == b,
{
    assert(hex_text(a)[0] == hex_digit(a as int / 16));
    assert(hex_text(a)[1] == hex_digit(a as int % 16));
    assert(hex_text(b)[0] == hex_digit(b as int / 16));
    assert(hex_text(b)[1] == hex_digit(b as int % 16));
    assert(a as int / 16 == b as int / 16);
    assert(a as int % 16 == b as int % 16);
}

/// When the texts show the matrix bytes, a pick matches a running path's next
/// step exactly when the picked cell holds the same byte as that step's cell.
pub proof fn lemma_pick_matches_bytes(s: MatrixState, path: Seq<[u8; 3]>, t: i32)
    requires
        forall|r: int, c: int| 0 <= r < 5 && 0 <= c < 5 ==> #[trigger] s.hex_cells[r][c]@ == hex_text(s.cells[r][c]),
        s.cursor_x < 5,
        s.cursor_y < 5,
        path_steps(s, t),
        t < path.len(),
        in_matrix(path[t as int]),
    ensures
        path_hit(s, path, t) <==> s.cells[path[t as int][0] as int][path[t as int][1] as int]
            == s.cells[s.cursor_y as int][s.cursor_x as int],
{
    let a = s.cells[path[t as int][0] as int][path[t as int][1] as int];
    let b = s.cells[s.cursor_y as int][s.cursor_x as int];
    assert(s.hex_cells[path[t as int][0] as int][path[t as int][1] as int]@ == hex_text(a));
    assert(s.hex_cells[s.cursor_y as int][s.cursor_x as int]@ == hex_text(b));
    if hex_text(a) == hex_text(b) {
        lemma_hex_text_injective(a, b);
    }
}


/// In a well formed state every path's line can be drawn: the steps it reads
/// lie in the matrix.
pub proof fn lemma_wf_lines_ok(s: MatrixState)
    requires
        s.wf(),
    ensures
        path_line_ok(s.path1@, s.path1_tracking),
        path_line_ok(s.path2@, s.path2_tracking),
        path_line_ok(s.path3@, s.path3_tracking),
{
    if s.path1@.len() > 0 {
        assert(in_matrix(s.path1@[0]));
    }
    if s.path2@.len() > 0 {
        assert(in_matrix(s.path2@[0]));
    }
    if s.path3@.len() > 0 {
        assert(in_matrix(s.path3@[0]));
    }
}

/// Picking a cell that was picked before moves no path on and fails none.
pub proof fn lemma_repick_changes_no_path(s: MatrixState, path: Seq<[u8; 3]>, t: i32)
    requires
        cursor_visited(s),
    ensures
        tracking_after_pick(s, path, t) == t,
        path_after_pick(s, path, t) == path,
{
}

} // verus!
