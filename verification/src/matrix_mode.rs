//! The puzzle's state: a 5x5 matrix of bytes taken from a network reply.

use vstd::prelude::*;
use crate::matrix_backend::{
    clicked, generate_path, handle_enter_key, handle_key_event, handle_mouse_event, in_matrix,
    long_path_shape, middle_path_shape, mouse_ok, moved_by_key, pick_ok, picked, short_path_shape,
    KeyCode, MouseEvent,
};

verus! {

/// How a round of the puzzle ended.
pub enum AppExit {
    /// The player aborted the hack.
    Quit,
    /// The round is over; start a new one with a fresh matrix.
    Reload,
}

/// A rectangle of terminal cells: its top-left corner and its size.
#[derive(Clone, Copy, Debug)]
pub struct Rect {
    pub x: u16,
    pub y: u16,
    pub width: u16,
    pub height: u16,
}

/// Everything one round of the puzzle keeps track of.
///
/// A path is a list of `[row, column, picked]` triples; `picked` is 1 once the
/// player has matched that step. A path's tracking value is the index of the
/// next step to match, -1 once the path has failed, -2 once it is finished.
#[derive(Clone)]
pub struct MatrixState {
    /// The (up to seven) cells the player has picked, as hexadecimal text.
    pub bufor: [String; 7],
    /// The matrix bytes.
    pub cells: [[u8; 5]; 5],
    /// The matrix bytes as hexadecimal text.
    pub hex_cells: [[String; 5]; 5],
    /// The cells the player has already picked.
    pub visited_cells: [[bool; 5]; 5],
    pub path1: Vec<[u8; 3]>,
    pub path2: Vec<[u8; 3]>,
    pub path3: Vec<[u8; 3]>,
    pub path1_tracking: i32,
    pub path2_tracking: i32,
    pub path3_tracking: i32,
    pub cursor_x: usize,
    pub cursor_y: usize,
    /// Where the matrix was last drawn, for mouse clicks.
    pub matrix_area: Option<Rect>,
    /// true: the cursor moves along a row; false: along a column.
    pub row_col: bool,
    pub active_row: u8,
    pub active_col: u8,
}

/// The cell that byte `i` of the input lands in: row `i / 5`, column `i % 5`,
/// for the first 25 bytes; every other cell holds 0.
pub open spec fn matrix_cell_from_data(data: Seq<u8>, row: int, col: int) -> u8 {
    let i = row * 5 + col;
    if i < data.len() { data[i] } else { 0 }
}

/// Lays the first 25 bytes of `data` out row by row in a 5x5 matrix; cells
/// past the end of a short input stay 0.
pub fn parse_data_to_matrix(data: &[u8]) -> (matrix: [[u8; 5]; 5])
    ensures
        forall|r: int, c: int|
            0 <= r < 5 && 0 <= c < 5 ==> #[trigger] matrix[r][c] == matrix_cell_from_data(data@, r, c),
{
    let mut matrix = [[0u8; 5]; 5];
    let n: usize = if data.len() < 25 { data.len() } else { 25 };
    let mut i: usize = 0;
    while i < n
        invariant
            n <= 25,
            n <= data@.len(),
            n == data@.len() || n == 25,
            i <= n,
            forall|r: int, c: int|
                0 <= r < 5 && 0 <= c < 5 ==> #[trigger] matrix[r][c] == (if r * 5 + c < i {
                    data@[r * 5 + c]
                } else {
                    0u8
                }),
        decreases n - i,
    {
        let x = i % 5;
        let y = i / 5;
        matrix[y][x] = data[i];
        i = i + 1;
    }
    matrix
}


/// The upper-case hexadecimal digit of a value below 16.
pub open spec fn hex_digit(n: int) -> char {
    if n < 10 {
        (('0' as int) + n) as char
    } else {
        (('A' as int) + (n - 10)) as char
    }
}

/// The two upper-case hexadecimal digits of a byte, high nibble first
/// (the text `{:02X}` prints).
pub open spec fn hex_text(b: u8) -> Seq<char> {
    seq![hex_digit(b as int / 16), hex_digit(b as int % 16)]
}

/// Writes a byte as two upper-case hexadecimal digits.
pub fn hex_byte(b: u8) -> (s: String)
    ensures
        s@ == hex_text(b),
{
    let digits = "0123456789ABCDEF";
    proof {
        reveal_strlit("0123456789ABCDEF");
    }
    assert(digits.is_ascii());
    let hi = (b / 16) as usize;
    let lo = (b % 16) as usize;
    let high = digits.substring_ascii(hi, hi + 1);
    let low = digits.substring_ascii(lo, lo + 1);
    let mut s = String::new();
    s.append(high);
    s.append(low);
    assert(s@ =~= hex_text(b));
    s
}


/// Writes a row of bytes as hexadecimal text.
fn hex_row(row: [u8; 5]) -> (texts: [String; 5])
    ensures
        forall|c: int| 0 <= c < 5 ==> #[trigger] texts[c]@ == hex_text(row[c]),
{
    [hex_byte(row[0]), hex_byte(row[1]), hex_byte(row[2]), hex_byte(row[3]), hex_byte(row[4])]
}

/// Writes every byte of the matrix as hexadecimal text.
pub fn hex_matrix(cells: &[[u8; 5]; 5]) -> (texts: [[String; 5]; 5])
    ensures
        forall|r: int, c: int|
            0 <= r < 5 && 0 <= c < 5 ==> #[trigger] texts[r][c]@ == hex_text(cells[r][c]),
{
    [hex_row(cells[0]), hex_row(cells[1]), hex_row(cells[2]), hex_row(cells[3]), hex_row(cells[4])]
}

/// The colours the puzzle draws with.
#[derive(Clone, Copy, Debug, PartialEq, Eq)]
pub enum UiColor {
    Cyan,
    Red,
    LightGreen,
    LightYellow,
    Yellow,
    Black,
    LightCyan,
    Gray,
}

/// A piece of bold text in one colour.
pub struct StyledText {
    pub text: String,
    pub color: UiColor,
}

/// The colour of a path step: red once the path has failed, green once the
/// step is matched, yellow while it waits.
pub open spec fn step_color(path_state: i32, flag: u8) -> UiColor {
    if path_state == -1 {
        UiColor::Red
    } else if flag == 1 {
        UiColor::LightGreen
    } else {
        UiColor::LightYellow
    }
}

/// The text of one path step: the byte it asks for, in hexadecimal, and a space.
pub open spec fn step_text(path: Seq<[u8; 3]>, matrix: [[u8; 5]; 5], i: int) -> Seq<char> {
    hex_text(matrix[path[i][0] as int][path[i][1] as int]) + " "@
}

/// The pieces of a path's line: the label, then either "FINISHED" (for a
/// finished path that has steps) or one piece per step.
pub open spec fn path_line(label: Seq<char>, path: Seq<[u8; 3]>, matrix: [[u8; 5]; 5], path_state: i32) -> Seq<(Seq<char>, UiColor)> {
    seq![(label + ": "@, UiColor::Cyan)] + if path_state == -2 {
        if path.len() > 0 {
            seq![("FINISHED"@, UiColor::LightGreen)]
        } else {
            Seq::empty()
        }
    } else {
        Seq::new(path.len(), |i: int| (step_text(path, matrix, i), step_color(path_state, path[i][2])))
    }
}

/// The steps that the line of a path reads from the matrix lie inside it.
pub open spec fn path_line_ok(path: Seq<[u8; 3]>, path_state: i32) -> bool {
    if path_state == -2 {
        path.len() > 0 ==> in_matrix(path[0])
    } else {
        forall|i: int| 0 <= i < path.len() ==> #[trigger] in_matrix(path[i])
    }
}

/// The pieces `format_path_line` hands out are exactly those of `path_line`.
pub open spec fn pieces_are(pieces: Seq<StyledText>, want: Seq<(Seq<char>, UiColor)>) -> bool {
    &&& pieces.len() == want.len()
    &&& forall|i: int| 0 <= i < want.len() ==> #[trigger] pieces[i].text@ == want[i].0 && pieces[i].color == want[i].1
}

/// Builds the line that shows a path to the player: its label, then the
/// bytes it asks for, coloured by progress, or "FINISHED".
pub fn format_path_line(label: &str, path: &Vec<[u8; 3]>, matrix: &[[u8; 5]; 5], path_state: i32) -> (spans: Vec<StyledText>)
    requires
        path_line_ok(path@, path_state),
    ensures
        pieces_are(spans@, path_line(label@, path@, *matrix, path_state)),
{
    let ghost want = path_line(label@, path@, *matrix, path_state);
    let mut spans: Vec<StyledText> = Vec::new();
    let head = String::from_str(label).concat(": ");
    spans.push(StyledText { text: head, color: UiColor::Cyan });
    let mut i: usize = 0;
    while i < path.len()
        invariant
            i <= path.len(),
            path_line_ok(path@, path_state),
            want == path_line(label@, path@, *matrix, path_state),
            path_state != -2 ==> pieces_are(spans@, want.take(i + 1)),
            path_state == -2 ==> i == 0 && pieces_are(spans@, want.take(1)),
        decreases path.len() - i,
    {
        let step = path[i];
        assert(in_matrix(path@[i as int]));
        let value = matrix[step[0] as usize][step[1] as usize];
        if path_state == -2 {
            spans.push(StyledText { text: String::from_str("FINISHED"), color: UiColor::LightGreen });
            assert(pieces_are(spans@, want));
            return spans;
        }
        let color = if path_state == -1 {
            UiColor::Red
        } else if step[2] == 1 {
            UiColor::LightGreen
        } else {
            UiColor::LightYellow
        };
        let text = hex_byte(value).concat(" ");
        spans.push(StyledText { text, color });
        i = i + 1;
        assert(pieces_are(spans@, want.take(i + 1)));
    }
    assert(want.take(i + 1) =~= want);
    spans
}


/// How one matrix cell is drawn: its text, its colours and whether it is bold.
pub struct StyledCell {
    pub text: String,
    pub fg: UiColor,
    pub bg: Option<UiColor>,
    pub bold: bool,
}

/// The cell lies on the active row (while the cursor moves along rows) or on
/// the active column (while it moves along columns).
pub open spec fn on_active_line(s: MatrixState, x: int, y: int) -> bool {
    (s.row_col && s.active_row as int == y) || (!s.row_col && s.active_col as int == x)
}

pub open spec fn under_cursor(s: MatrixState, x: int, y: int) -> bool {
    s.cursor_x == x && s.cursor_y == y
}

/// Background: light cyan under the cursor, yellow on the active line.
pub open spec fn cell_bg(s: MatrixState, x: int, y: int) -> Option<UiColor> {
    if under_cursor(s, x, y) {
        Some(UiColor::LightCyan)
    } else if on_active_line(s, x, y) {
        Some(UiColor::Yellow)
    } else {
        None
    }
}

/// Foreground: grey once picked, black when highlighted, cyan otherwise.
pub open spec fn cell_fg(s: MatrixState, x: int, y: int) -> UiColor {
    if s.visited_cells[y][x] {
        UiColor::Gray
    } else if under_cursor(s, x, y) || on_active_line(s, x, y) {
        UiColor::Black
    } else {
        UiColor::Cyan
    }
}

/// Bold when highlighted or picked.
pub open spec fn cell_bold(s: MatrixState, x: int, y: int) -> bool {
    under_cursor(s, x, y) || on_active_line(s, x, y) || s.visited_cells[y][x]
}

/// How the cell in column `x` of row `y` is drawn: its hexadecimal text
/// between two spaces, highlighted on the active line and under the cursor,
/// greyed out once picked.
pub fn matrix_cell(state: &MatrixState, x: usize, y: usize) -> (cell: StyledCell)
    requires
        x < 5,
        y < 5,
    ensures
        cell.text@ == " "@ + state.hex_cells[y as int][x as int]@ + " "@,
        cell.fg == cell_fg(*state, x as int, y as int),
        cell.bg == cell_bg(*state, x as int, y as int),
        cell.bold == cell_bold(*state, x as int, y as int),
{
    let text = String::from_str(" ").concat(state.hex_cells[y][x].as_str()).concat(" ");
    let mut fg = UiColor::Cyan;
    let mut bg: Option<UiColor> = None;
    let mut bold = false;
    if state.row_col && state.active_row as usize == y {
        bg = Some(UiColor::Yellow);
        fg = UiColor::Black;
        bold = true;
    }
    if !state.row_col && state.active_col as usize == x {
        bg = Some(UiColor::Yellow);
        fg = UiColor::Black;
        bold = true;
    }
    if state.cursor_x == x && state.cursor_y == y {
        bg = Some(UiColor::LightCyan);
        fg = UiColor::Black;
        bold = true;
    }
    if state.visited_cells[y][x] {
        fg = UiColor::Gray;
        bold = true;
    }
    StyledCell { text, fg, bg, bold }
}

/// A round is over once no path is running any more or the buffer of seven
/// picks is full.
pub open spec fn round_over_spec(s: MatrixState, counter: usize) -> bool {
    (s.path1_tracking < 0 && s.path2_tracking < 0 && s.path3_tracking < 0) || counter >= 7
}

/// Whether the round is over (see `round_over_spec`).
pub fn round_over(state: &MatrixState, counter: usize) -> (over: bool)
    ensures
        over == round_over_spec(*state, counter),
{
    state.path1_tracking < 0 && state.path2_tracking < 0 && state.path3_tracking < 0 || counter >= 7
}

/// An input the puzzle reacts to.
#[derive(Clone, Copy, Debug, PartialEq, Eq)]
pub enum InputEvent {
    /// A key went down (`pressed`) or up or repeated.
    Key { code: KeyCode, pressed: bool },
    Mouse(MouseEvent),
    Resize,
}

/// The key is one of the two pick keys: space and enter.
pub open spec fn is_pick_key(code: KeyCode) -> bool {
    code == KeyCode::Char(' ') || code == KeyCode::Enter
}

/// What an input needs to be handled without going out of bounds: the
/// buffer holds at most seven picks, a pick finds its cell and paths in
/// range, and a mouse press is not on the title line of the matrix.
pub open spec fn input_ok(s: MatrixState, counter: usize, event: InputEvent) -> bool {
    &&& counter <= 7
    &&& match event {
        InputEvent::Key { code, pressed } => (pressed && is_pick_key(code) && !round_over_spec(s, counter))
            ==> pick_ok(s),
        InputEvent::Mouse(m) => match s.matrix_area {
            Some(area) => mouse_ok(m, area),
            None => true,
        },
        InputEvent::Resize => true,
    }
}

/// `s1` and `c1` are `s0` and `c0` after `event`, and `exit` what the round
/// answers:
/// - a key that is released or repeats changes nothing;
/// - `q` quits the round;
/// - a pick key reloads once the round is over, and otherwise writes the
///   cursor cell's text into the next buffer slot and picks that cell;
/// - any other key moves the cursor;
/// - a mouse event over the drawn matrix may move the cursor;
/// - a resize changes nothing.
pub open spec fn handled(s0: MatrixState, c0: usize, event: InputEvent, s1: MatrixState, c1: usize, exit: Option<AppExit>) -> bool {
    match event {
        InputEvent::Key { code, pressed } => {
            if !pressed {
                exit.is_none() && s1 == s0 && c1 == c0
            } else if code == KeyCode::Char('q') {
                exit == Some(AppExit::Quit) && s1 == s0 && c1 == c0
            } else if is_pick_key(code) {
                if round_over_spec(s0, c0) {
                    exit == Some(AppExit::Reload) && s1 == s0 && c1 == c0
                } else {
                    &&& exit.is_none()
                    &&& c1 == c0 + 1
                    &&& picked(s0, s1)
                    &&& s1.bufor[c0 as int]@ == s0.hex_cells[s0.cursor_y as int][s0.cursor_x as int]@
                    &&& forall|i: int| 0 <= i < 7 && i != c0 ==> #[trigger] s1.bufor[i] == s0.bufor[i]
                }
            } else {
                exit.is_none() && c1 == c0 && moved_by_key(s0, code, s1)
            }
        },
        InputEvent::Mouse(m) => {
            &&& exit.is_none()
            &&& c1 == c0
            &&& match s0.matrix_area {
                Some(area) => clicked(s0, m, area, s1),
                None => s1 == s0,
            }
        },
        InputEvent::Resize => exit.is_none() && s1 == s0 && c1 == c0,
    }
}

/// Reacts to one input of the player; `counter` counts the picks made so far.
/// Returns how the round ends, or `None` while it goes on.
pub fn handle_input(state: &mut MatrixState, counter: &mut usize, event: InputEvent) -> (exit: Option<AppExit>)
    requires
        input_ok(*old(state), *old(counter), event),
    ensures
        handled(*old(state), *old(counter), event, *final(state), *final(counter), exit),
{
    match event {
        InputEvent::Key { code, pressed } => {
            if !pressed {
                return None;
            }
            if let KeyCode::Char('q') = code {
                return Some(AppExit::Quit);
            }
            let pick = match code {
                KeyCode::Char(' ') => true,
                KeyCode::Enter => true,
                _ => false,
            };
            if pick {
                if round_over(state, *counter) {
                    return Some(AppExit::Reload);
                }
                let c = *counter;
                state.bufor[c] = state.hex_cells[state.cursor_y][state.cursor_x].clone();
                *counter = c + 1;
                handle_enter_key(state);
                return None;
            }
            handle_key_event(code, state);
            None
        },
        InputEvent::Mouse(m) => {
            if let Some(area) = state.matrix_area {
                handle_mouse_event(m, area, state);
            }
            None
        },
        InputEvent::Resize => None,
    }
}


/// A path's tracking value is meaningful: failed (-1), finished (-2) or the
/// index of a step of the path.
pub open spec fn tracking_valid(path: Seq<[u8; 3]>, t: i32) -> bool {
    t == -1 || t == -2 || (0 <= t < path.len())
}

/// Every step of the path lies in the matrix, and its length fits an `i32`.
pub open spec fn path_valid(path: Seq<[u8; 3]>) -> bool {
    &&& path.len() <= i32::MAX
    &&& forall|i: int| 0 <= i < path.len() ==> #[trigger] in_matrix(path[i])
}

/// The picked marks of a path follow its tracking value: while it runs, the
/// steps before the next one are marked and the others are not; once it is
/// finished, all are marked.
pub open spec fn marks_follow(path: Seq<[u8; 3]>, t: i32) -> bool {
    &&& t >= 0 ==> forall|i: int| 0 <= i < path.len() ==> #[trigger] path[i][2] == (if i < t { 1u8 } else { 0u8 })
    &&& t == -2 ==> forall|i: int| 0 <= i < path.len() ==> #[trigger] path[i][2] == 1u8
}

impl MatrixState {
    /// The state every round keeps: the cursor in the matrix, every path step
    /// in the matrix and every tracking value meaningful.
    pub open spec fn wf(self) -> bool {
        &&& self.cursor_x < 5
        &&& self.cursor_y < 5
        &&& path_valid(self.path1@)
        &&& path_valid(self.path2@)
        &&& path_valid(self.path3@)
        &&& tracking_valid(self.path1@, self.path1_tracking)
        &&& tracking_valid(self.path2@, self.path2_tracking)
        &&& tracking_valid(self.path3@, self.path3_tracking)
    }

    /// The picked marks of all three paths follow their tracking values.
    pub open spec fn marks_ok(self) -> bool {
        &&& marks_follow(self.path1@, self.path1_tracking)
        &&& marks_follow(self.path2@, self.path2_tracking)
        &&& marks_follow(self.path3@, self.path3_tracking)
    }
}

/// The state a round starts from: the matrix made of the reply bytes, an
/// empty buffer ("XX" in each slot), nothing picked, the cursor at the top
/// left moving along row 0, and three fresh paths laid out at random.
pub open spec fn fresh_round(s: MatrixState, data: Seq<u8>) -> bool {
    &&& forall|r: int, c: int| 0 <= r < 5 && 0 <= c < 5 ==> #[trigger] s.cells[r][c] == matrix_cell_from_data(data, r, c)
    &&& forall|r: int, c: int| 0 <= r < 5 && 0 <= c < 5 ==> #[trigger] s.hex_cells[r][c]@ == hex_text(s.cells[r][c])
    &&& forall|i: int| 0 <= i < 7 ==> #[trigger] s.bufor[i]@ == "XX"@
    &&& forall|r: int, c: int| 0 <= r < 5 && 0 <= c < 5 ==> !#[trigger] s.visited_cells[r][c]
    &&& long_path_shape(s.path3@)
    &&& middle_path_shape(s.path2@, s.path3@)
    &&& short_path_shape(s.path1@)
    &&& s.path1_tracking == 0 && s.path2_tracking == 0 && s.path3_tracking == 0
    &&& s.cursor_x == 0 && s.cursor_y == 0
    &&& s.matrix_area.is_none()
    &&& s.row_col
    &&& s.active_row == 0 && s.active_col == 0
}

/// Starts a round on the bytes of a network reply.
pub fn initial_state(raw_data: &[u8]) -> (state: MatrixState)
    ensures
        fresh_round(state, raw_data@),
{
    let cells = parse_data_to_matrix(raw_data);
    let hex_cells = hex_matrix(&cells);
    let bufor = [
        String::from_str("XX"),
        String::from_str("XX"),
        String::from_str("XX"),
        String::from_str("XX"),
        String::from_str("XX"),
        String::from_str("XX"),
        String::from_str("XX"),
    ];
    let mut state = MatrixState {
        bufor,
        cells,
        hex_cells,
        visited_cells: [[false; 5]; 5],
        path1: Vec::new(),
        path2: Vec::new(),
        path3: Vec::new(),
        path1_tracking: 0,
        path2_tracking: 0,
        path3_tracking: 0,
        cursor_x: 0,
        cursor_y: 0,
        matrix_area: None,
        row_col: true,
        active_col: 0,
        active_row: 0,
    };
    generate_path(&mut state);
    state
}

} // verus!
