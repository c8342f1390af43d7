//! How the puzzle's paths are laid out and how the player's input moves it on.

use vstd::prelude::*;
use crate::matrix_mode::{MatrixState, Rect};
use crate::random::random_index;

verus! {

/// 1 for true, 0 for false.
pub open spec fn bit(b: bool) -> int {
    if b { 1 } else { 0 }
}

/// The number of free (false) entries of a line of five cells.
pub open spec fn free_count(line: Seq<bool>) -> int {
    bit(!line[0]) + bit(!line[1]) + bit(!line[2]) + bit(!line[3]) + bit(!line[4])
}

/// The number of free entries of a line that come before index `j`.
pub open spec fn free_before(line: Seq<bool>, j: int) -> int {
    bit(0 < j && !line[0]) + bit(1 < j && !line[1]) + bit(2 < j && !line[2]) + bit(3 < j
        && !line[3]) + bit(4 < j && !line[4])
}

/// Row `r` of a 5x5 grid.
pub open spec fn grid_row(v: [[bool; 5]; 5], r: int) -> Seq<bool> {
    v[r]@
}

/// Column `c` of a 5x5 grid.
pub open spec fn grid_col(v: [[bool; 5]; 5], c: int) -> Seq<bool> {
    seq![v[0][c], v[1][c], v[2][c], v[3][c], v[4][c]]
}

/// The index of the `k`-th free entry (counting from 0) of a line of five.
pub fn nth_free(line: [bool; 5], k: usize) -> (j: usize)
    requires
        k < free_count(line@),
    ensures
        j < 5,
        !line[j as int],
        free_before(line@, j as int) == k,
{
    let mut j: usize = 0;
    let mut seen: usize = 0;
    while j < 5
        invariant
            j <= 5,
            seen == free_before(line@, j as int),
            seen <= k,
            k < free_count(line@),
        decreases 5 - j,
    {
        if !line[j] {
            if seen == k {
                return j;
            }
            seen = seen + 1;
        }
        j = j + 1;
    }
    j
}

/// The number of taken cells of row `r`.
pub open spec fn row_taken(v: [[bool; 5]; 5], r: int) -> int {
    5 - free_count(grid_row(v, r))
}

/// The number of taken cells of column `c`.
pub open spec fn col_taken(v: [[bool; 5]; 5], c: int) -> int {
    5 - free_count(grid_col(v, c))
}

/// `p` names a cell of the 5x5 matrix.
pub open spec fn in_matrix(p: [u8; 3]) -> bool {
    p[0] < 5 && p[1] < 5
}

/// Two steps name the same cell.
pub open spec fn same_cell(p: [u8; 3], q: [u8; 3]) -> bool {
    p[0] == q[0] && p[1] == q[1]
}

/// Step `i` of a path turns correctly: it shares the previous step's column
/// when `i` is odd and the previous step's row when `i` is even.
pub open spec fn turns_at(p: Seq<[u8; 3]>, i: int) -> bool {
    if i % 2 == 1 {
        p[i][1] == p[i - 1][1]
    } else {
        p[i][0] == p[i - 1][0]
    }
}

/// Steps `i` and `j` of a path name different cells.
pub open spec fn apart(p: Seq<[u8; 3]>, i: int, j: int) -> bool {
    !same_cell(p[i], p[j])
}

/// Step `i` lies in the matrix and is not picked yet.
pub open spec fn fresh_step(p: Seq<[u8; 3]>, i: int) -> bool {
    in_matrix(p[i]) && p[i][2] == 0
}

/// The first `n` steps of the long path: each in the matrix and not yet
/// picked, no cell twice, the first in row 0, and each later step sharing
/// the previous step's column (odd steps) or row (even steps).
pub open spec fn long_path_prefix(p: Seq<[u8; 3]>, n: int) -> bool {
    &&& n <= p.len()
    &&& forall|i: int| 0 <= i < n ==> #[trigger] fresh_step(p, i)
    &&& forall|i: int, j: int| 0 <= i < j < n ==> #[trigger] apart(p, i, j)
    &&& n > 0 ==> p[0][0] == 0
    &&& forall|i: int| 1 <= i < n ==> #[trigger] turns_at(p, i)
}

/// The shape of the long path (the third): five distinct cells, starting in
/// row 0 and turning by a right angle at every step.
pub open spec fn long_path_shape(p: Seq<[u8; 3]>) -> bool {
    p.len() == 5 && long_path_prefix(p, 5)
}

/// The shape of the middle path (the second): it runs from step `pick` of the
/// long path, over a corner of the rectangle that step and step `pick + 2`
/// span, to step `pick + 2`.
pub open spec fn middle_path_from(p2: Seq<[u8; 3]>, p3: Seq<[u8; 3]>, pick: int, row_first: bool) -> bool {
    let a = p3[pick];
    let b = p3[pick + 2];
    &&& 0 <= pick < 3
    &&& p2.len() == 3
    &&& p2[0] == a
    &&& p2[2] == b
    &&& p2[1] == (if row_first {
        [a[0], b[1], 0u8]
    } else {
        [b[0], a[1], 0u8]
    })
}

pub open spec fn middle_path_shape(p2: Seq<[u8; 3]>, p3: Seq<[u8; 3]>) -> bool {
    exists|pick: int, row_first: bool| middle_path_from(p2, p3, pick, row_first)
}

/// The shape of the short path (the first): a cell of row 0 and a cell below
/// it in the same column.
pub open spec fn short_path_shape(p1: Seq<[u8; 3]>) -> bool {
    &&& p1.len() == 2
    &&& p1[0][0] == 0 && p1[0][1] < 5 && p1[0][2] == 0
    &&& 1 <= p1[1][0] < 5 && p1[1][1] == p1[0][1] && p1[1][2] == 0
}

/// Lays out the long path: five steps, each picked at random among the cells
/// not yet on the path in the current row (even steps) or column (odd steps).
/// Drawing uniformly among the free cells gives each of them the same chance
/// as drawing any cell of the line again and again until a free one comes up.
fn long_path() -> (path: Vec<[u8; 3]>)
    ensures
        long_path_shape(path@),
{
    let mut visited = [[false; 5]; 5];
    let mut path: Vec<[u8; 3]> = Vec::new();
    let mut x: u8 = 0;
    let mut y: u8 = 0;
    while path.len() < 5
        invariant
            path.len() <= 5,
            long_path_prefix(path@, path.len() as int),
            forall|r: int, c: int|
                0 <= r < 5 && 0 <= c < 5 ==> (#[trigger] visited[r][c] <==> exists|i: int|
                    0 <= i < path.len() && path@[i][0] == r && path@[i][1] == c),
            forall|r: int| 0 <= r < 5 ==> #[trigger] row_taken(visited, r) <= path.len(),
            forall|c: int| 0 <= c < 5 ==> #[trigger] col_taken(visited, c) <= path.len(),
            x < 5,
            y < 5,
            path.len() == 0 ==> y == 0,
            path.len() > 0 ==> x == path@[path.len() - 1][1] && y == path@[path.len() - 1][0],
        decreases 5 - path.len(),
    {
        // No row or column holds more taken cells than there are steps, so
        // with fewer than five steps the current line always has a free cell.
        let n = path.len();
        let ghost old_visited = visited;
        let ghost old_path = path@;
        if n % 2 == 0 {
            let line = visited[y as usize];
            assert(line@ == grid_row(visited, y as int));
            let free = free_count_exec(&line);
            let k = random_index(0, free);
            let c = nth_free(line, k);
            visited[y as usize][c] = true;
            path.push([y, c as u8, 0]);
            x = c as u8;
            proof {
                lemma_take_cell(old_visited, visited, old_path, path@, y as int, c as int);
                lemma_extend_long_path(old_path, path@);
            }
        } else {
            let line = [
                visited[0][x as usize],
                visited[1][x as usize],
                visited[2][x as usize],
                visited[3][x as usize],
                visited[4][x as usize],
            ];
            assert(line@ =~= grid_col(visited, x as int));
            let free = free_count_exec(&line);
            let k = random_index(0, free);
            let r = nth_free(line, k);
            visited[r][x as usize] = true;
            path.push([r as u8, x, 0]);
            y = r as u8;
            proof {
                lemma_take_cell(old_visited, visited, old_path, path@, r as int, x as int);
                lemma_extend_long_path(old_path, path@);
            }
        }
    }
    path
}

/// Builds the middle path from a drawn start step `pick` of the long path and
/// a drawn corner: the row of the start and the column of the end when
/// `row_first`, else the row of the end and the column of the start.
pub fn middle_path(path3: &Vec<[u8; 3]>, pick: usize, row_first: bool) -> (path2: Vec<[u8; 3]>)
    requires
        pick < 3,
        path3.len() == 5,
    ensures
        middle_path_from(path2@, path3@, pick as int, row_first),
{
    let point1 = path3[pick];
    let point3 = path3[pick + 2];
    let point2 = if row_first {
        [point1[0], point3[1], 0]
    } else {
        [point3[0], point1[1], 0]
    };
    let mut path2: Vec<[u8; 3]> = Vec::new();
    path2.push(point1);
    path2.push(point2);
    path2.push(point3);
    path2
}

/// The fields that laying out paths leaves alone.
pub open spec fn same_but_paths(a: MatrixState, b: MatrixState) -> bool {
    &&& a.bufor == b.bufor
    &&& a.cells == b.cells
    &&& a.hex_cells == b.hex_cells
    &&& a.visited_cells == b.visited_cells
    &&& a.path1_tracking == b.path1_tracking
    &&& a.path2_tracking == b.path2_tracking
    &&& a.path3_tracking == b.path3_tracking
    &&& a.cursor_x == b.cursor_x
    &&& a.cursor_y == b.cursor_y
    &&& a.matrix_area == b.matrix_area
    &&& a.row_col == b.row_col
    &&& a.active_row == b.active_row
    &&& a.active_col == b.active_col
}

/// Lays out the three paths of a round at random: the long path of five
/// steps, the middle path of three over a corner between two of its steps,
/// and the short path of two steps down one column from row 0. Every other
/// field is left as it was.
pub fn generate_path(state: &mut MatrixState)
    ensures
        long_path_shape(final(state).path3@),
        middle_path_shape(final(state).path2@, final(state).path3@),
        short_path_shape(final(state).path1@),
        same_but_paths(*final(state), *old(state)),
{
    let path3 = long_path();
    let pick = random_index(0, 3);
    let random_pick = random_index(0, 2);
    let path2 = middle_path(&path3, pick, random_pick == 0);
    let column = random_index(0, 5);
    let x = column as u8;
    let mut path1: Vec<[u8; 3]> = Vec::new();
    path1.push([0, x, 0]);
    let row = random_index(1, 5);
    path1.push([row as u8, x, 0]);
    assert(middle_path_from(path2@, path3@, pick as int, random_pick == 0));
    state.path1 = path1;
    state.path2 = path2;
    state.path3 = path3;
}

/// The hexadecimal text of the cell under the cursor.
pub open spec fn cursor_text(s: MatrixState) -> Seq<char> {
    s.hex_cells[s.cursor_y as int][s.cursor_x as int]@
}

/// Whether the cell under the cursor was picked before.
pub open spec fn cursor_visited(s: MatrixState) -> bool {
    s.visited_cells[s.cursor_y as int][s.cursor_x as int]
}

/// A path takes part in a press of the pick key: it is still running and the
/// cell under the cursor is a fresh one.
pub open spec fn path_steps(s: MatrixState, t: i32) -> bool {
    t >= 0 && !cursor_visited(s)
}

/// The pick matches the path's next step: the two cells show the same text.
pub open spec fn path_hit(s: MatrixState, path: Seq<[u8; 3]>, t: i32) -> bool {
    path_steps(s, t) && s.hex_cells[path[t as int][0] as int][path[t as int][1] as int]@
        == cursor_text(s)
}

/// A path's tracking value after a pick: one step on after a match (-2 once
/// the last step is matched), -1 after a miss past the first step, the same
/// otherwise.
pub open spec fn tracking_after_pick(s: MatrixState, path: Seq<[u8; 3]>, t: i32) -> i32 {
    if !path_steps(s, t) {
        t
    } else if path_hit(s, path, t) {
        if t + 1 >= path.len() {
            -2i32
        } else {
            (t + 1) as i32
        }
    } else if t > 0 {
        -1i32
    } else {
        t
    }
}

/// A path after a pick: the matched step is marked as picked.
pub open spec fn path_after_pick(s: MatrixState, path: Seq<[u8; 3]>, t: i32) -> Seq<[u8; 3]> {
    if path_hit(s, path, t) {
        path.update(t as int, [path[t as int][0], path[t as int][1], 1u8])
    } else {
        path
    }
}

/// A pick can be made without going out of bounds: a path that takes part
/// has a next step, inside the matrix, and a length an `i32` can hold.
pub open spec fn pick_ok_for(s: MatrixState, path: Seq<[u8; 3]>, t: i32) -> bool {
    path_steps(s, t) ==> (t < path.len() && path.len() <= i32::MAX && in_matrix(path[t as int]))
}

/// What a press of the pick key needs: the cursor inside the matrix and each
/// taking part path with a next step inside it.
pub open spec fn pick_ok(s: MatrixState) -> bool {
    &&& s.cursor_x < 5
    &&& s.cursor_y < 5
    &&& pick_ok_for(s, s.path1@, s.path1_tracking)
    &&& pick_ok_for(s, s.path2@, s.path2_tracking)
    &&& pick_ok_for(s, s.path3@, s.path3_tracking)
}

/// `s1` is `s0` after a pick of the cell under the cursor (the list of picked
/// texts aside): the cursor switches between moving along a row and along a
/// column, the picked row and column become the active ones, each running
/// path moves on or fails, and the cell is marked as picked.
pub open spec fn picked(s0: MatrixState, s1: MatrixState) -> bool {
    &&& s1.row_col == !s0.row_col
    &&& s1.active_row == s0.cursor_y as u8
    &&& s1.active_col == s0.cursor_x as u8
    &&& s1.path1@ == path_after_pick(s0, s0.path1@, s0.path1_tracking)
    &&& s1.path2@ == path_after_pick(s0, s0.path2@, s0.path2_tracking)
    &&& s1.path3@ == path_after_pick(s0, s0.path3@, s0.path3_tracking)
    &&& s1.path1_tracking == tracking_after_pick(s0, s0.path1@, s0.path1_tracking)
    &&& s1.path2_tracking == tracking_after_pick(s0, s0.path2@, s0.path2_tracking)
    &&& s1.path3_tracking == tracking_after_pick(s0, s0.path3@, s0.path3_tracking)
    &&& forall|r: int, c: int|
        0 <= r < 5 && 0 <= c < 5 ==> #[trigger] s1.visited_cells[r][c] == ((r == s0.cursor_y && c
            == s0.cursor_x) || s0.visited_cells[r][c])
    &&& s1.cells == s0.cells
    &&& s1.hex_cells == s0.hex_cells
    &&& s1.cursor_x == s0.cursor_x
    &&& s1.cursor_y == s0.cursor_y
    &&& s1.matrix_area == s0.matrix_area
}

/// Moves one path on after a pick of the cursor cell.
fn advance_path(s: &MatrixState, path: &mut Vec<[u8; 3]>, tracking: &mut i32)
    requires
        s.cursor_x < 5,
        s.cursor_y < 5,
        pick_ok_for(*s, old(path)@, *old(tracking)),
    ensures
        final(path)@ == path_after_pick(*s, old(path)@, *old(tracking)),
        *final(tracking) == tracking_after_pick(*s, old(path)@, *old(tracking)),
{
    let t = *tracking;
    if t >= 0 && !s.visited_cells[s.cursor_y][s.cursor_x] {
        let step = path[t as usize];
        if s.hex_cells[step[0] as usize][step[1] as usize] == s.hex_cells[s.cursor_y][s.cursor_x] {
            path.set(t as usize, [step[0], step[1], 1]);
            let next = t + 1;
            if next >= path.len() as i32 {
                *tracking = -2;
            } else {
                *tracking = next;
            }
        } else {
            if t > 0 {
                *tracking = -1;
            }
        }
    }
}

/// Picks the cell under the cursor: the cursor switches between moving along
/// a row and along a column, the picked row and column become the active
/// ones, each running path moves on (or fails), and the cell is marked as
/// picked. The matrix, the cursor and the rest stay as they were.
pub fn handle_enter_key(state: &mut MatrixState)
    requires
        pick_ok(*old(state)),
    ensures
        picked(*old(state), *final(state)),
        final(state).bufor == old(state).bufor,
{
    let ghost s0 = *state;
    state.row_col = !state.row_col;
    state.active_row = state.cursor_y as u8;
    state.active_col = state.cursor_x as u8;
    let ghost s1 = *state;
    assert(path_steps(s1, s0.path1_tracking) == path_steps(s0, s0.path1_tracking));

    let mut path1: Vec<[u8; 3]> = Vec::new();
    std::mem::swap(&mut path1, &mut state.path1);
    let mut t1 = state.path1_tracking;
    advance_path(state, &mut path1, &mut t1);
    let mut path2: Vec<[u8; 3]> = Vec::new();
    std::mem::swap(&mut path2, &mut state.path2);
    let mut t2 = state.path2_tracking;
    advance_path(state, &mut path2, &mut t2);
    let mut path3: Vec<[u8; 3]> = Vec::new();
    std::mem::swap(&mut path3, &mut state.path3);
    let mut t3 = state.path3_tracking;
    advance_path(state, &mut path3, &mut t3);
    state.path1 = path1;
    state.path1_tracking = t1;
    state.path2 = path2;
    state.path2_tracking = t2;
    state.path3 = path3;
    state.path3_tracking = t3;

    let cy = state.cursor_y;
    let cx = state.cursor_x;
    state.visited_cells[cy][cx] = true;
}

/// The keys the puzzle tells apart.
#[derive(Clone, Copy, Debug, PartialEq, Eq)]
pub enum KeyCode {
    Up,
    Down,
    Left,
    Right,
    Enter,
    Char(char),
    /// Any other key.
    Other,
}

/// The fields that moving the cursor leaves alone.
pub open spec fn same_but_cursor(a: MatrixState, b: MatrixState) -> bool {
    &&& a.bufor == b.bufor
    &&& a.cells == b.cells
    &&& a.hex_cells == b.hex_cells
    &&& a.visited_cells == b.visited_cells
    &&& a.path1 == b.path1
    &&& a.path2 == b.path2
    &&& a.path3 == b.path3
    &&& a.path1_tracking == b.path1_tracking
    &&& a.path2_tracking == b.path2_tracking
    &&& a.path3_tracking == b.path3_tracking
    &&& a.matrix_area == b.matrix_area
    &&& a.row_col == b.row_col
    &&& a.active_row == b.active_row
    &&& a.active_col == b.active_col
}

/// The cursor column after a key: left and right move it by one while the
/// cursor moves along a row, without leaving columns 0 to 4.
pub open spec fn cursor_x_after_key(s: MatrixState, key: KeyCode) -> usize {
    match key {
        KeyCode::Left => if s.cursor_x > 0 && s.row_col { (s.cursor_x - 1) as usize } else { s.cursor_x },
        KeyCode::Right => if s.cursor_x < 4 && s.row_col { (s.cursor_x + 1) as usize } else { s.cursor_x },
        _ => s.cursor_x,
    }
}

/// The cursor row after a key: up and down move it by one while the cursor
/// moves along a column, without leaving rows 0 to 4.
pub open spec fn cursor_y_after_key(s: MatrixState, key: KeyCode) -> usize {
    match key {
        KeyCode::Up => if s.cursor_y > 0 && !s.row_col { (s.cursor_y - 1) as usize } else { s.cursor_y },
        KeyCode::Down => if s.cursor_y < 4 && !s.row_col { (s.cursor_y + 1) as usize } else { s.cursor_y },
        _ => s.cursor_y,
    }
}

/// `s1` is `s0` after `key`: only the cursor moves.
pub open spec fn moved_by_key(s0: MatrixState, key: KeyCode, s1: MatrixState) -> bool {
    &&& s1.cursor_x == cursor_x_after_key(s0, key)
    &&& s1.cursor_y == cursor_y_after_key(s0, key)
    &&& same_but_cursor(s1, s0)
}

/// Moves the cursor with the arrow keys, along the active row or column only;
/// other keys change nothing.
pub fn handle_key_event(key: KeyCode, state: &mut MatrixState)
    ensures
        moved_by_key(*old(state), key, *final(state)),
{
    match key {
        KeyCode::Up => {
            if state.cursor_y > 0 && state.row_col == false {
                state.cursor_y = state.cursor_y - 1;
            }
        },
        KeyCode::Down => {
            if state.cursor_y < 4 && state.row_col == false {
                state.cursor_y = state.cursor_y + 1;
            }
        },
        KeyCode::Left => {
            if state.cursor_x > 0 && state.row_col == true {
                state.cursor_x = state.cursor_x - 1;
            }
        },
        KeyCode::Right => {
            if state.cursor_x < 4 && state.row_col == true {
                state.cursor_x = state.cursor_x + 1;
            }
        },
        _ => {},
    }
}

/// What a mouse event does: a press of any button, or something else.
#[derive(Clone, Copy, Debug, PartialEq, Eq)]
pub enum MouseEventKind {
    Down,
    Other,
}

/// A mouse event at a terminal cell.
#[derive(Clone, Copy, Debug, PartialEq, Eq)]
pub struct MouseEvent {
    pub kind: MouseEventKind,
    pub column: u16,
    pub row: u16,
}

/// `a + b`, held at `u16::MAX`.
pub open spec fn saturating_add_u16(a: u16, b: u16) -> u16 {
    if a + b > u16::MAX { u16::MAX } else { (a + b) as u16 }
}

/// Position (x, y) lies in the rectangle, its border included.
pub open spec fn rect_contains_spec(area: Rect, x: u16, y: u16) -> bool {
    &&& area.x <= x < saturating_add_u16(area.x, area.width)
    &&& area.y <= y < saturating_add_u16(area.y, area.height)
}

/// Asks ratatui's `Rect::contains` whether the position (x, y) lies in
/// `area`. Its source compares x with the left edge and with
/// `x.saturating_add(width)`, and y likewise with the top and
/// `y.saturating_add(height)`; the contract says exactly that.
#[verifier::external_body]
fn rect_contains(area: Rect, x: u16, y: u16) -> (inside: bool)
    ensures
        inside == rect_contains_spec(area, x, y),
{
    let r = ratatui::layout::Rect { x: area.x, y: area.y, width: area.width, height: area.height };
    r.contains(ratatui::layout::Position { x, y })
}

/// A press lands in the rectangle: the matrix is drawn three columns per
/// cell, under a title line.
pub open spec fn press_inside(mouse: MouseEvent, area: Rect) -> bool {
    mouse.kind == MouseEventKind::Down && rect_contains_spec(area, mouse.column, mouse.row)
}

/// The row offset of a press under the title line underflows when the press
/// is on the title line itself.
pub open spec fn mouse_ok(mouse: MouseEvent, area: Rect) -> bool {
    press_inside(mouse, area) ==> mouse.row != area.y
}

/// The matrix column a press inside the area points at.
pub open spec fn clicked_x(mouse: MouseEvent, area: Rect) -> int {
    (mouse.column - area.x) / 3
}

/// The matrix row a press inside the area points at.
pub open spec fn clicked_y(mouse: MouseEvent, area: Rect) -> int {
    mouse.row - area.y - 1
}

/// A press that lands on one of the 25 cells.
pub open spec fn click_hits_cell(mouse: MouseEvent, area: Rect) -> bool {
    press_inside(mouse, area) && clicked_x(mouse, area) < 5 && clicked_y(mouse, area) < 5
}

/// `s1` is `s0` after a mouse event over the matrix drawn in `area`: a press
/// on one of the cells puts the cursor there; nothing else changes.
pub open spec fn clicked(s0: MatrixState, mouse: MouseEvent, area: Rect, s1: MatrixState) -> bool {
    &&& click_hits_cell(mouse, area) ==> s1.cursor_x == clicked_x(mouse, area) && s1.cursor_y
        == clicked_y(mouse, area)
    &&& !click_hits_cell(mouse, area) ==> s1.cursor_x == s0.cursor_x && s1.cursor_y == s0.cursor_y
    &&& same_but_cursor(s1, s0)
}

/// Puts the cursor on the cell a mouse press lands on; presses elsewhere and
/// other mouse events change nothing.
pub fn handle_mouse_event(mouse: MouseEvent, matrix_area: Rect, state: &mut MatrixState)
    requires
        mouse_ok(mouse, matrix_area),
    ensures
        clicked(*old(state), mouse, matrix_area, *final(state)),
{
    if let MouseEventKind::Down = mouse.kind {
        let x = mouse.column;
        let y = mouse.row;
        if rect_contains(matrix_area, x, y) {
            let cell_width: u16 = 3;
            let rel_x = x - matrix_area.x;
            let rel_y = y - matrix_area.y - 1;
            let cx = (rel_x / cell_width) as usize;
            let cy = rel_y as usize;
            if cx < 5 && cy < 5 {
                state.cursor_x = cx;
                state.cursor_y = cy;
            }
        }
    }
}

/// Taking a free cell adds one to the taken count of its row and of its
/// column, leaves the other rows and columns alone, and keeps the grid equal
/// to the set of cells on the path.
proof fn lemma_take_cell(
    v0: [[bool; 5]; 5],
    v1: [[bool; 5]; 5],
    p0: Seq<[u8; 3]>,
    p1: Seq<[u8; 3]>,
    r: int,
    c: int,
)
    requires
        0 <= r < 5,
        0 <= c < 5,
        !v0[r][c],
        v1[r][c],
        forall|i: int, j: int| 0 <= i < 5 && 0 <= j < 5 && (i != r || j != c) ==> v1[i][j] == v0[i][j],
        p1 == p0.push([r as u8, c as u8, 0u8]),
        forall|i: int, j: int|
            0 <= i < 5 && 0 <= j < 5 ==> (#[trigger] v0[i][j] <==> exists|k: int|
                0 <= k < p0.len() && p0[k][0] == i && p0[k][1] == j),
    ensures
        forall|i: int, j: int|
            0 <= i < 5 && 0 <= j < 5 ==> (#[trigger] v1[i][j] <==> exists|k: int|
                0 <= k < p1.len() && p1[k][0] == i && p1[k][1] == j),
        row_taken(v1, r) == row_taken(v0, r) + 1,
        col_taken(v1, c) == col_taken(v0, c) + 1,
        forall|i: int| 0 <= i < 5 && i != r ==> #[trigger] row_taken(v1, i) == row_taken(v0, i),
        forall|j: int| 0 <= j < 5 && j != c ==> #[trigger] col_taken(v1, j) == col_taken(v0, j),
        forall|k: int| 0 <= k < p0.len() ==> !same_cell(#[trigger] p0[k], [r as u8, c as u8, 0u8]),
{
    assert forall|i: int, j: int| 0 <= i < 5 && 0 <= j < 5 implies (#[trigger] v1[i][j] <==> exists|k: int|
        0 <= k < p1.len() && p1[k][0] == i && p1[k][1] == j) by {
        if i == r && j == c {
            assert(p1[p0.len() as int][0] == i && p1[p0.len() as int][1] == j);
        } else {
            if v1[i][j] {
                let k = choose|k: int| 0 <= k < p0.len() && p0[k][0] == i && p0[k][1] == j;
                assert(p1[k] == p0[k]);
            }
            if exists|k: int| 0 <= k < p1.len() && p1[k][0] == i && p1[k][1] == j {
                let k = choose|k: int| 0 <= k < p1.len() && p1[k][0] == i && p1[k][1] == j;
                assert(k < p0.len());
                assert(p1[k] == p0[k]);
            }
        }
    }
    assert forall|k: int| 0 <= k < p0.len() implies !same_cell(#[trigger] p0[k], [r as u8, c as u8, 0u8]) by {
        if same_cell(p0[k], [r as u8, c as u8, 0u8]) {
            assert(v0[r][c]);
        }
    }
}

/// A new step that lies in the matrix, is not on the path yet and turns
/// correctly keeps the path well shaped.
proof fn lemma_extend_long_path(p0: Seq<[u8; 3]>, p1: Seq<[u8; 3]>)
    requires
        long_path_prefix(p0, p0.len() as int),
        p1.len() == p0.len() + 1,
        forall|k: int| 0 <= k < p0.len() ==> p1[k] == p0[k],
        in_matrix(p1[p0.len() as int]),
        p1[p0.len() as int][2] == 0,
        forall|k: int| 0 <= k < p0.len() ==> !same_cell(#[trigger] p0[k], p1[p0.len() as int]),
        p0.len() == 0 ==> p1[0][0] == 0,
        p0.len() > 0 && p0.len() % 2 == 1 ==> p1[p0.len() as int][1] == p0[p0.len() - 1][1],
        p0.len() > 0 && p0.len() % 2 == 0 ==> p1[p0.len() as int][0] == p0[p0.len() - 1][0],
    ensures
        long_path_prefix(p1, p1.len() as int),
{
    let n = p0.len() as int;
    assert forall|i: int, j: int| 0 <= i < j < p1.len() implies #[trigger] apart(p1, i, j) by {
        if j < n {
            assert(apart(p0, i, j));
        } else {
            assert(!same_cell(p0[i], p1[n]));
        }
    }
    assert forall|i: int| 1 <= i < p1.len() implies #[trigger] turns_at(p1, i) by {
        if i < n {
            assert(turns_at(p0, i));
        }
    }
    assert forall|i: int| 0 <= i < p1.len() implies #[trigger] fresh_step(p1, i) by {
        if i < n {
            assert(fresh_step(p0, i));
        }
    }
}

/// Counts the free entries of a line of five.
fn free_count_exec(line: &[bool; 5]) -> (n: usize)
    ensures
        n == free_count(line@),
{
    let mut n: usize = 0;
    if !line[0] { n = n + 1; }
    if !line[1] { n = n + 1; }
    if !line[2] { n = n + 1; }
    if !line[3] { n = n + 1; }
    if !line[4] { n = n + 1; }
    n
}

} // verus!
