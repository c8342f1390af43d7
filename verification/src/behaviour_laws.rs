//! What each operation does, stated on the raw fields of its inputs and
//! results.

use vstd::prelude::*;
use crate::matrix_backend::{
    clicked, fresh_step, free_before, free_count, long_path_shape, middle_path_from, moved_by_key,
    pick_ok, picked, short_path_shape, turns_at, apart, KeyCode, MouseEvent, MouseEventKind,
};
use crate::matrix_mode::{
    cell_bg, cell_bold, cell_fg, fresh_round, handled, hex_text, matrix_cell_from_data, path_line,
    pieces_are, round_over_spec, AppExit, InputEvent, MatrixState, Rect, StyledText, UiColor,
};
use crate::sending::{variant_for, SendingVariant};

verus! {

/// Path number `k` (1, 2 or 3) of a state.
pub open spec fn path_k(s: MatrixState, k: int) -> Seq<[u8; 3]> {
    if k == 1 {
        s.path1@
    } else if k == 2 {
        s.path2@
    } else {
        s.path3@
    }
}

/// The tracking value of path number `k` (1, 2 or 3).
pub open spec fn tracking_k(s: MatrixState, k: int) -> i32 {
    if k == 1 {
        s.path1_tracking
    } else if k == 2 {
        s.path2_tracking
    } else {
        s.path3_tracking
    }
}

/// What a pick does to each path:
/// - a path that has finished or failed, or any path when the cursor cell was
///   picked before, is left exactly as it was;
/// - when the cursor cell shows the same text as the path's next step, that
///   step (and no other) is marked picked, and the path moves to the following
///   step, or to -2 (finished) after its last step;
/// - on a miss, a path that has matched at least one step fails (-1), and a
///   path still at its first step waits there; the steps are untouched.
pub proof fn lemma_pick_outcome(s0: MatrixState, s1: MatrixState, k: int)
    requires
        picked(s0, s1),
        pick_ok(s0),
        1 <= k <= 3,
    ensures
        (tracking_k(s0, k) < 0 || s0.visited_cells[s0.cursor_y as int][s0.cursor_x as int])
            ==> tracking_k(s1, k) == tracking_k(s0, k) && path_k(s1, k) == path_k(s0, k),
        (tracking_k(s0, k) >= 0 && !s0.visited_cells[s0.cursor_y as int][s0.cursor_x as int]
            && s0.hex_cells[path_k(s0, k)[tracking_k(s0, k) as int][0] as int][path_k(s0, k)[tracking_k(s0, k) as int][1] as int]@
            == s0.hex_cells[s0.cursor_y as int][s0.cursor_x as int]@) ==> {
            &&& path_k(s1, k).len() == path_k(s0, k).len()
            &&& path_k(s1, k)[tracking_k(s0, k) as int][0] == path_k(s0, k)[tracking_k(s0, k) as int][0]
            &&& path_k(s1, k)[tracking_k(s0, k) as int][1] == path_k(s0, k)[tracking_k(s0, k) as int][1]
            &&& path_k(s1, k)[tracking_k(s0, k) as int][2] == 1
            &&& forall|i: int| 0 <= i < path_k(s0, k).len() && i != tracking_k(s0, k) ==> #[trigger] path_k(s1, k)[i] == path_k(s0, k)[i]
            &&& tracking_k(s0, k) + 1 < path_k(s0, k).len() ==> tracking_k(s1, k) == tracking_k(s0, k) + 1
            &&& tracking_k(s0, k) + 1 == path_k(s0, k).len() ==> tracking_k(s1, k) == -2
        },
        (tracking_k(s0, k) > 0 && !s0.visited_cells[s0.cursor_y as int][s0.cursor_x as int]
            && s0.hex_cells[path_k(s0, k)[tracking_k(s0, k) as int][0] as int][path_k(s0, k)[tracking_k(s0, k) as int][1] as int]@
            != s0.hex_cells[s0.cursor_y as int][s0.cursor_x as int]@) ==> tracking_k(s1, k) == -1 && path_k(s1, k) == path_k(s0, k),
        (tracking_k(s0, k) == 0 && !s0.visited_cells[s0.cursor_y as int][s0.cursor_x as int]
            && s0.hex_cells[path_k(s0, k)[0][0] as int][path_k(s0, k)[0][1] as int]@
            != s0.hex_cells[s0.cursor_y as int][s0.cursor_x as int]@) ==> tracking_k(s1, k) == 0 && path_k(s1, k) == path_k(s0, k),
{
}

/// A pick marks the cursor cell and no other, flips between moving along a
/// row and along a column, and makes the cursor's row and column the active
/// ones; the matrix and the cursor stay.
pub proof fn lemma_pick_marks_cell(s0: MatrixState, s1: MatrixState, r: int, c: int)
    requires
        picked(s0, s1),
        s0.cursor_x < 5,
        s0.cursor_y < 5,
        0 <= r < 5,
        0 <= c < 5,
    ensures
        r == s0.cursor_y && c == s0.cursor_x ==> s1.visited_cells[r][c],
        !(r == s0.cursor_y && c == s0.cursor_x) ==> s1.visited_cells[r][c] == s0.visited_cells[r][c],
        s1.row_col != s0.row_col,
        s1.active_row == s0.cursor_y,
        s1.active_col == s0.cursor_x,
        s1.cursor_x == s0.cursor_x && s1.cursor_y == s0.cursor_y,
        s1.cells == s0.cells && s1.hex_cells == s0.hex_cells,
{
    assert(s1.visited_cells[r][c] == ((r == s0.cursor_y && c == s0.cursor_x) || s0.visited_cells[r][c]));
}

/// A round is over once seven picks are made, or once all three paths have
/// stopped running (finished or failed); while fewer than seven picks are
/// made and any path still runs, it is not over.
pub proof fn lemma_round_over_rule(s: MatrixState, counter: usize)
    ensures
        counter >= 7 ==> round_over_spec(s, counter),
        s.path1_tracking < 0 && s.path2_tracking < 0 && s.path3_tracking < 0 ==> round_over_spec(s, counter),
        counter < 7 && s.path1_tracking >= 0 ==> !round_over_spec(s, counter),
        counter < 7 && s.path2_tracking >= 0 ==> !round_over_spec(s, counter),
        counter < 7 && s.path3_tracking >= 0 ==> !round_over_spec(s, counter),
{
}

/// While a path runs and fewer than seven picks are made, a press of a pick
/// key is played: nothing ends, the pick count goes up by one, the next
/// buffer slot gets the cursor cell's text, and the cursor cell is picked.
pub proof fn lemma_pick_key_plays(
    s0: MatrixState,
    c0: usize,
    code: KeyCode,
    s1: MatrixState,
    c1: usize,
    exit: Option<AppExit>,
)
    requires
        handled(s0, c0, InputEvent::Key { code, pressed: true }, s1, c1, exit),
        code == KeyCode::Enter || code == KeyCode::Char(' '),
        c0 < 7,
        s0.path1_tracking >= 0 || s0.path2_tracking >= 0 || s0.path3_tracking >= 0,
        s0.cursor_x < 5 && s0.cursor_y < 5,
    ensures
        exit.is_none(),
        c1 == c0 + 1,
        s1.bufor[c0 as int]@ == s0.hex_cells[s0.cursor_y as int][s0.cursor_x as int]@,
        s1.visited_cells[s0.cursor_y as int][s0.cursor_x as int],
{
    lemma_round_over_rule(s0, c0);
    assert(picked(s0, s1));
    assert(s1.visited_cells[s0.cursor_y as int][s0.cursor_x as int]);
}

/// `q` quits and changes nothing; once the round is over, a pick key reloads
/// and changes nothing.
pub proof fn lemma_quit_and_reload(
    s0: MatrixState,
    c0: usize,
    code: KeyCode,
    s1: MatrixState,
    c1: usize,
    exit: Option<AppExit>,
)
    requires
        handled(s0, c0, InputEvent::Key { code, pressed: true }, s1, c1, exit),
    ensures
        code == KeyCode::Char('q') ==> exit == Some(AppExit::Quit) && s1 == s0 && c1 == c0,
        (code == KeyCode::Enter || code == KeyCode::Char(' ')) && (c0 >= 7 || (s0.path1_tracking < 0
            && s0.path2_tracking < 0 && s0.path3_tracking < 0)) ==> exit == Some(AppExit::Reload)
            && s1 == s0 && c1 == c0,
{
    lemma_round_over_rule(s0, c0);
}

/// The arrow keys: up and down move the cursor one row while it moves along
/// a column, left and right one column while it moves along a row, never
/// off the 5x5 matrix; every other case leaves the cursor where it is.
pub proof fn lemma_arrow_keys(s0: MatrixState, key: KeyCode, s1: MatrixState)
    requires
        moved_by_key(s0, key, s1),
    ensures
        key == KeyCode::Up && !s0.row_col && s0.cursor_y > 0 ==> s1.cursor_y == s0.cursor_y - 1 && s1.cursor_x == s0.cursor_x,
        key == KeyCode::Up && (s0.row_col || s0.cursor_y == 0) ==> s1.cursor_y == s0.cursor_y && s1.cursor_x == s0.cursor_x,
        key == KeyCode::Down && !s0.row_col && s0.cursor_y < 4 ==> s1.cursor_y == s0.cursor_y + 1 && s1.cursor_x == s0.cursor_x,
        key == KeyCode::Down && (s0.row_col || s0.cursor_y >= 4) ==> s1.cursor_y == s0.cursor_y && s1.cursor_x == s0.cursor_x,
        key == KeyCode::Left && s0.row_col && s0.cursor_x > 0 ==> s1.cursor_x == s0.cursor_x - 1 && s1.cursor_y == s0.cursor_y,
        key == KeyCode::Left && (!s0.row_col || s0.cursor_x == 0) ==> s1.cursor_x == s0.cursor_x && s1.cursor_y == s0.cursor_y,
        key == KeyCode::Right && s0.row_col && s0.cursor_x < 4 ==> s1.cursor_x == s0.cursor_x + 1 && s1.cursor_y == s0.cursor_y,
        key == KeyCode::Right && (!s0.row_col || s0.cursor_x >= 4) ==> s1.cursor_x == s0.cursor_x && s1.cursor_y == s0.cursor_y,
        key != KeyCode::Up && key != KeyCode::Down && key != KeyCode::Left && key != KeyCode::Right
            ==> s1.cursor_x == s0.cursor_x && s1.cursor_y == s0.cursor_y,
        s0.cursor_x < 5 && s0.cursor_y < 5 ==> s1.cursor_x < 5 && s1.cursor_y < 5,
        s1.row_col == s0.row_col && s1.visited_cells == s0.visited_cells,
{
}

/// A mouse press inside the drawn matrix, below its title line, at
/// three terminal columns per cell, puts the cursor on the cell it lands on;
/// presses outside the area or past the cells, and other mouse events, leave
/// the cursor where it is.
pub proof fn lemma_click_rule(s0: MatrixState, m: MouseEvent, area: Rect, s1: MatrixState)
    requires
        clicked(s0, m, area, s1),
    ensures
        ({
            let inside = area.x <= m.column && (m.column as int) < area.x as int + area.width as int
                && (m.column as int) < 65535 && area.y <= m.row && (m.row as int) < area.y as int
                + area.height as int && (m.row as int) < 65535;
            &&& (m.kind == MouseEventKind::Down && inside && (m.column - area.x) / 3 < 5 && m.row
                > area.y && m.row - area.y - 1 < 5) ==> s1.cursor_x == (m.column - area.x) / 3
                && s1.cursor_y == m.row - area.y - 1
            &&& (m.kind != MouseEventKind::Down || !inside) ==> s1.cursor_x == s0.cursor_x
                && s1.cursor_y == s0.cursor_y
            &&& (m.kind == MouseEventKind::Down && inside && (m.column - area.x) / 3 >= 5)
                ==> s1.cursor_x == s0.cursor_x && s1.cursor_y == s0.cursor_y
        }),
        s1.visited_cells == s0.visited_cells && s1.row_col == s0.row_col,
{
}

/// How a cell is drawn: a picked cell is always grey; an unpicked cell under
/// the cursor or on the active line is black, any other cyan. The cursor cell
/// has a light cyan background, other cells on the active line a yellow one,
/// the rest none. A cell is bold exactly when it is picked, under the cursor
/// or on the active line.
pub proof fn lemma_cell_look(s: MatrixState, x: int, y: int)
    ensures
        s.visited_cells[y][x] ==> cell_fg(s, x, y) == UiColor::Gray,
        ({
            let cursor = s.cursor_x == x && s.cursor_y == y;
            let active = (s.row_col && s.active_row as int == y) || (!s.row_col && s.active_col as int == x);
            &&& !s.visited_cells[y][x] && (cursor || active) ==> cell_fg(s, x, y) == UiColor::Black
            &&& !s.visited_cells[y][x] && !cursor && !active ==> cell_fg(s, x, y) == UiColor::Cyan
            &&& cursor ==> cell_bg(s, x, y) == Some(UiColor::LightCyan)
            &&& !cursor && active ==> cell_bg(s, x, y) == Some(UiColor::Yellow)
            &&& !cursor && !active ==> cell_bg(s, x, y).is_none()
            &&& cell_bold(s, x, y) == (s.visited_cells[y][x] || cursor || active)
        }),
{
}

/// The value of an upper-case hexadecimal digit.
pub open spec fn digit_value(c: char) -> int {
    if '0' <= c && c <= '9' {
        c as int - '0' as int
    } else {
        c as int - 'A' as int + 10
    }
}

/// The text of a byte is two upper-case hexadecimal digits that read back as
/// the byte, high digit first.
pub proof fn lemma_hex_text_reads_back(b: u8)
    ensures
        hex_text(b).len() == 2,
        forall|i: int| 0 <= i < 2 ==> ('0' <= #[trigger] hex_text(b)[i] <= '9') || ('A' <= hex_text(b)[i] <= 'F'),
        digit_value(hex_text(b)[0]) * 16 + digit_value(hex_text(b)[1]) == b as int,
{
}

/// A path's line starts with its label and a colon. For a path that has not
/// finished it then has one piece per step (piece `j` for step `j - 1`): the step's byte, then a space;
/// red once the path failed, else green for a picked step and yellow for one
/// still waiting. A finished path shows "FINISHED" in green, if it has steps.
pub proof fn lemma_path_line_pieces(
    pieces: Seq<StyledText>,
    label: Seq<char>,
    path: Seq<[u8; 3]>,
    matrix: [[u8; 5]; 5],
    st: i32,
)
    requires
        pieces_are(pieces, path_line(label, path, matrix, st)),
    ensures
        pieces[0].text@ == label + ": "@,
        pieces[0].color == UiColor::Cyan,
        st != -2 ==> pieces.len() == path.len() + 1,
        st != -2 ==> forall|j: int| 1 <= j <= path.len() ==> {
            &&& (#[trigger] pieces[j]).text@ == hex_text(matrix[path[j - 1][0] as int][path[j - 1][1] as int]) + " "@
            &&& st == -1 ==> pieces[j].color == UiColor::Red
            &&& st != -1 && path[j - 1][2] == 1 ==> pieces[j].color == UiColor::LightGreen
            &&& st != -1 && path[j - 1][2] != 1 ==> pieces[j].color == UiColor::LightYellow
        },
        st == -2 && path.len() > 0 ==> pieces.len() == 2 && pieces[1].text@ == "FINISHED"@
            && pieces[1].color == UiColor::LightGreen,
        st == -2 && path.len() == 0 ==> pieces.len() == 1,
{
    let want = path_line(label, path, matrix, st);
    assert(pieces[0].text@ == want[0].0);
    if st != -2 {
        assert forall|j: int| 1 <= j <= path.len() implies {
            &&& (#[trigger] pieces[j]).text@ == hex_text(matrix[path[j - 1][0] as int][path[j - 1][1] as int]) + " "@
            &&& st == -1 ==> pieces[j].color == UiColor::Red
            &&& st != -1 && path[j - 1][2] == 1 ==> pieces[j].color == UiColor::LightGreen
            &&& st != -1 && path[j - 1][2] != 1 ==> pieces[j].color == UiColor::LightYellow
        } by {
            assert(pieces[j].text@ == want[j].0);
        }
    } else if path.len() > 0 {
        assert(pieces[1].text@ == want[1].0);
    }
}


/// Byte `i` of the input, for the first 25 bytes, sits in row `i / 5`,
/// column `i % 5`; the cells past the end of a short input hold 0.
pub proof fn lemma_matrix_layout(data: Seq<u8>, i: int)
    requires
        0 <= i < 25,
    ensures
        i < data.len() ==> matrix_cell_from_data(data, i / 5, i % 5) == data[i],
        i >= data.len() ==> matrix_cell_from_data(data, i / 5, i % 5) == 0,
{
}

/// A fresh round: an empty buffer ("XX" in each of the seven slots), no cell
/// picked, every path waiting at its first step, the cursor at the top left
/// moving along row 0, and no matrix drawn yet.
pub proof fn lemma_fresh_round_start(s: MatrixState, data: Seq<u8>, i: int, r: int, c: int)
    requires
        fresh_round(s, data),
        0 <= i < 7,
        0 <= r < 5,
        0 <= c < 5,
    ensures
        s.bufor[i]@ == seq!['X', 'X'],
        !s.visited_cells[r][c],
        s.path1_tracking == 0 && s.path2_tracking == 0 && s.path3_tracking == 0,
        s.cursor_x == 0 && s.cursor_y == 0 && s.row_col,
        s.active_row == 0 && s.active_col == 0,
        s.matrix_area.is_none(),
        s.hex_cells[r][c]@ == hex_text(s.cells[r][c]),
{
    reveal_strlit("XX");
}

/// The long path has five different cells, all in the matrix and not yet
/// picked; it starts in row 0, its second step shares the first's column,
/// the third the second's row, the fourth the third's column and the fifth
/// the fourth's row.
pub proof fn lemma_long_path_cells(p: Seq<[u8; 3]>, i: int, j: int)
    requires
        long_path_shape(p),
        0 <= i < j < 5,
    ensures
        p.len() == 5,
        p[i][0] < 5 && p[i][1] < 5 && p[i][2] == 0,
        !(p[i][0] == p[j][0] && p[i][1] == p[j][1]),
        p[0][0] == 0,
        p[1][1] == p[0][1],
        p[2][0] == p[1][0],
        p[3][1] == p[2][1],
        p[4][0] == p[3][0],
{
    assert(fresh_step(p, i));
    assert(apart(p, i, j));
    assert(turns_at(p, 1) && turns_at(p, 2) && turns_at(p, 3) && turns_at(p, 4));
}

/// The middle path goes from step `pick` of the long path to step `pick + 2`
/// over a corner that shares its row with one end and its column with the
/// other; the short path is a cell of row 0 and a cell below it in the same
/// column; no step of either is picked yet.
pub proof fn lemma_short_and_middle_paths(p1: Seq<[u8; 3]>, p2: Seq<[u8; 3]>, p3: Seq<[u8; 3]>, pick: int, row_first: bool)
    requires
        short_path_shape(p1),
        middle_path_from(p2, p3, pick, row_first),
    ensures
        p1.len() == 2 && p1[0][0] == 0 && p1[0][1] < 5 && 1 <= p1[1][0] < 5 && p1[1][1] == p1[0][1],
        p1[0][2] == 0 && p1[1][2] == 0,
        0 <= pick < 3,
        p2.len() == 3 && p2[0] == p3[pick] && p2[2] == p3[pick + 2],
        p2[1][2] == 0,
        (p2[1][0] == p2[0][0] && p2[1][1] == p2[2][1]) || (p2[1][0] == p2[2][0] && p2[1][1] == p2[0][1]),
        row_first ==> p2[1][0] == p2[0][0] && p2[1][1] == p2[2][1],
        !row_first ==> p2[1][0] == p2[2][0] && p2[1][1] == p2[0][1],
{
}

/// A released or repeated key, a resize, and a mouse event before the matrix
/// is drawn change nothing and end nothing.
pub proof fn lemma_idle_inputs(
    s0: MatrixState,
    c0: usize,
    event: InputEvent,
    s1: MatrixState,
    c1: usize,
    exit: Option<AppExit>,
)
    requires
        handled(s0, c0, event, s1, c1, exit),
        (event matches InputEvent::Key { pressed, .. } && !pressed) || event == InputEvent::Resize
            || (event is Mouse && s0.matrix_area.is_none()),
    ensures
        exit.is_none(),
        s1 == s0,
        c1 == c0,
{
}

/// Counting the free entries of a line from the left: none before index 0,
/// one more past each free entry, and all of them before index 5.
pub proof fn lemma_free_counting(line: Seq<bool>, j: int)
    requires
        0 <= j < 5,
    ensures
        free_before(line, 0) == 0,
        free_before(line, j + 1) == free_before(line, j) + if !line[j] { 1int } else { 0int },
        free_count(line) == free_before(line, 5),
{
}

/// Numbers 0, 1 and 2 name the two DNS queries and the HTTPS request, in that
/// order; every other number names the raw UDP probe.
pub proof fn lemma_variant_numbering(n: usize)
    ensures
        n == 0 ==> variant_for(n) == SendingVariant::DnsA,
        n == 1 ==> variant_for(n) == SendingVariant::DnsTxt,
        n == 2 ==> variant_for(n) == SendingVariant::Https,
        n >= 3 ==> variant_for(n) == SendingVariant::RawUdp,
{
}

} // verus!
