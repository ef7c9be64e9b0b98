//! The staff table: grid dimensions, the pitch sequence, the cell
//! classification rules, grid rendering, and the playback frame
//! sequence.

use vstd::prelude::*;

use crate::glyphs::{arrow_char, box_drawing_char, Arrow, BoxDrawing};

verus! {

/// Fixed grid bounds, immutable once constructed.
#[derive(Clone, Copy, Debug, PartialEq, Eq, Structural)]
pub struct Dimension {
    pub width: u8,
    pub height: u8,
}

impl Dimension {
    pub fn new(width: u8, height: u8) -> (d: Dimension)
        ensures
            d.width == width,
            d.height == height,
    {
        Dimension { width, height }
    }
}

/// The time-slot index a note column stands for: note columns are
/// numbered left to right starting at 0, one every four columns
/// beginning at column 2.
pub open spec fn note_slot(col: u8) -> int {
    (col - 2) / 4
}

/// Whether a column carries the vertical grid frame: the first column,
/// the last column, or any multiple of 16.
pub open spec fn is_frame_col(col: u8, width: u8) -> bool {
    col == 0 || col == width - 1 || col % 16 == 0
}

/// Whether the cell at `(row, col)` shows a note: the column is a note
/// column and the pitch of its time slot equals this row.
pub open spec fn is_note_cell(row: u8, col: u8, notes: Seq<u8>) -> bool {
    col % 4 == 2 && note_slot(col) < notes.len() && notes[note_slot(col)] == row
}

/// The category of the cell at `(row, col)`, classified in strict
/// priority order: a note hit overrides everything; on a staff row the
/// left edge, right edge and every 16th column are junctions and the
/// rest is horizontal line; elsewhere the frame columns are vertical
/// and the rest is blank.
pub open spec fn cell_category(
    row: u8,
    col: u8,
    width: u8,
    lines: Seq<u8>,
    notes: Seq<u8>,
) -> BoxDrawing {
    if is_note_cell(row, col, notes) {
        BoxDrawing::MusicalNote
    } else if lines.contains(row) {
        if col == 0 {
            BoxDrawing::JunctionRight
        } else if col == width - 1 {
            BoxDrawing::JunctionLeft
        } else if col % 16 == 0 {
            BoxDrawing::JunctionCross
        } else {
            BoxDrawing::Horizontal
        }
    } else {
        if is_frame_col(col, width) {
            BoxDrawing::Vertical
        } else {
            BoxDrawing::Void
        }
    }
}

/// The characters of one rendered grid row.
pub open spec fn row_chars(
    row: u8,
    width: u8,
    lines: Seq<u8>,
    notes: Seq<u8>,
) -> Seq<char> {
    Seq::new(width as nat, |c: int| box_drawing_char(
        cell_category(row, c as u8, width, lines, notes),
    ))
}

/// Whether `x` occurs in `v`.
fn contains_u8(v: &Vec<u8>, x: u8) -> (b: bool)
    ensures
        b == v@.contains(x),
{
    let mut i: usize = 0;
    while i < v.len()
        invariant
            i <= v@.len(),
            forall|j: int| 0 <= j < i ==> v@[j] != x,
        decreases v@.len() - i,
    {
        if v[i] == x {
            return true;
        }
        i += 1;
    }
    false
}

/// Classify the cell at `(row, col)` of a grid `width` columns wide,
/// with staff lines at the rows of `lines` and the pitch sequence
/// `notes`.
pub fn classify(row: u8, col: u8, width: u8, lines: &Vec<u8>, notes: &Vec<u8>) -> (d: BoxDrawing)
    requires
        col < width,
    ensures
        d == cell_category(row, col, width, lines@, notes@),
{
    if col % 4 == 2 {
        let slot = ((col - 2) / 4) as usize;
        if slot < notes.len() && notes[slot] == row {
            return BoxDrawing::MusicalNote;
        }
    }
    if contains_u8(lines, row) {
        if col == 0 {
            BoxDrawing::JunctionRight
        } else if col == width - 1 {
            BoxDrawing::JunctionLeft
        } else if col % 16 == 0 {
            BoxDrawing::JunctionCross
        } else {
            BoxDrawing::Horizontal
        }
    } else {
        if col == 0 || col == width - 1 || col % 16 == 0 {
            BoxDrawing::Vertical
        } else {
            BoxDrawing::Void
        }
    }
}

/// How many pitches one cycle carries, and how many steps playback runs.
pub const NOTES_LEN: usize = 16;

/// The staff table: staff-line rows, grid bounds, the pitch sequence of
/// the current cycle, and the playback tempo in milliseconds per step.
pub struct OcTable {
    pub lines: Vec<u8>,
    pub dimension: Dimension,
    pub notes: Vec<u8>,
    pub tempo_millis: u64,
}

impl OcTable {
    /// A fresh table: staff lines at rows 1, 3, 5, 7 and 9 of a 65 by 15
    /// grid, with no pitches yet.
    pub fn new(tempo_millis: u64) -> (t: OcTable)
        ensures
            t.lines@ == seq![1u8, 3u8, 5u8, 7u8, 9u8],
            t.dimension.width == 65,
            t.dimension.height == 15,
            t.notes@ == Seq::<u8>::empty(),
            t.tempo_millis == tempo_millis,
    {
        let mut lines: Vec<u8> = Vec::new();
        lines.push(1);
        lines.push(3);
        lines.push(5);
        lines.push(7);
        lines.push(9);
        proof {
            assert(lines@ =~= seq![1u8, 3u8, 5u8, 7u8, 9u8]);
        }
        OcTable { lines, dimension: Dimension::new(65, 15), notes: Vec::new(), tempo_millis }
    }

    /// Install the pitch sequence for this cycle. The caller draws the
    /// samples from the noise field and maps them to pitches; the table
    /// keeps them read-only for rendering and playback.
    pub fn generate_notes(&mut self, notes: Vec<u8>)
        requires
            notes@.len() == NOTES_LEN,
        ensures
            final(self).notes@ == notes@,
            final(self).lines == old(self).lines,
            final(self).dimension == old(self).dimension,
            final(self).tempo_millis == old(self).tempo_millis,
    {
        self.notes = notes;
    }

    /// Render the grid: one line per row, each the concatenation of the
    /// glyphs the classification rules pick, followed by one blank
    /// separator line. Rendering always succeeds; the error arm exists
    /// only for uniformity with callers whose output sink may fail.
    pub fn render(&self) -> (r: Result<Vec<String>, ()>)
        ensures
            r is Ok,
            r->Ok_0@.len() == self.dimension.height + 1,
            forall|i: int|
                0 <= i < self.dimension.height ==> #[trigger] r->Ok_0@[i]@ == row_chars(
                    i as u8, self.dimension.width, self.lines@, self.notes@,
                ),
            r->Ok_0@[self.dimension.height as int]@ == Seq::<char>::empty(),
    {
        let width = self.dimension.width;
        let height = self.dimension.height;
        let mut out: Vec<String> = Vec::new();
        let mut row: u8 = 0;
        while row < height
            invariant
                row <= height,
                out@.len() == row as int,
                forall|i: int|
                    0 <= i < row ==> #[trigger] out@[i]@ == row_chars(
                        i as u8, width, self.lines@, self.notes@,
                    ),
            decreases height - row,
        {
            let ghost rc = row_chars(row, width, self.lines@, self.notes@);
            let mut line = String::new();
            let mut col: u8 = 0;
            while col < width
                invariant
                    col <= width,
                    rc == row_chars(row, width, self.lines@, self.notes@),
                    line@ == rc.subrange(0, col as int),
                decreases width - col,
            {
                let d = classify(row, col, width, &self.lines, &self.notes);
                let g = d.get_utf8();
                line.append(g.as_str());
                proof {
                    assert(rc.subrange(0, col + 1) =~= rc.subrange(0, col as int) + seq![
                        box_drawing_char(d),
                    ]);
                }
                col += 1;
            }
            proof {
                assert(rc.subrange(0, width as int) =~= rc);
            }
            out.push(line);
            row += 1;
        }
        out.push(String::new());
        Ok(out)
    }
}

/// The characters of the playback frame for step `i`: `2 + 4*i` leading
/// blanks, then the filled arrow cue.
pub open spec fn frame_chars(i: int) -> Seq<char> {
    Seq::new((2 + 4 * i) as nat, |j: int| ' ').push(arrow_char(Arrow::UpArrowFilled))
}

/// The animation cue for playback step `i`.
pub fn playback_frame(i: usize) -> (r: String)
    requires
        i < NOTES_LEN,
    ensures
        r@ == frame_chars(i as int),
{
    let n: usize = 2 + 4 * i;
    let mut s = String::new();
    let mut j: usize = 0;
    while j < n
        invariant
            n == 2 + 4 * i,
            i < NOTES_LEN,
            j <= n,
            s@ == Seq::new(j as nat, |k: int| ' '),
        decreases n - j,
    {
        s.append(" ");
        proof {
            reveal_strlit(" ");
            assert(s@ =~= Seq::new((j + 1) as nat, |k: int| ' '));
        }
        j += 1;
    }
    let arrow = Arrow::UpArrowFilled.get_utf8();
    s.append(arrow.as_str());
    proof {
        assert(s@ =~= frame_chars(i as int));
    }
    s
}

impl OcTable {
    /// The full animation: one cue per pitch, in step order. The caller
    /// writes each frame to its sink and pauses `tempo_millis` between
    /// steps.
    pub fn playback_frames(&self) -> (r: Vec<String>)
        requires
            self.notes@.len() == NOTES_LEN,
        ensures
            r@.len() == NOTES_LEN,
            forall|i: int| 0 <= i < NOTES_LEN ==> #[trigger] r@[i]@ == frame_chars(i),
    {
        let mut out: Vec<String> = Vec::new();
        let mut i: usize = 0;
        while i < self.notes.len()
            invariant
                self.notes@.len() == NOTES_LEN,
                i <= NOTES_LEN,
                out@.len() == i as int,
                forall|k: int| 0 <= k < i ==> #[trigger] out@[k]@ == frame_chars(k),
            decreases self.notes@.len() - i,
        {
            out.push(playback_frame(i));
            i += 1;
        }
        out
    }
}

/// On a staff row, away from any note hit, the classification follows
/// the frame rules exactly: the left edge is a right-facing junction,
/// the right edge a left-facing one, every other multiple of 16 a
/// cross, and everything else a horizontal line.
pub proof fn lemma_staff_row_cells(row: u8, col: u8, width: u8, lines: Seq<u8>, notes: Seq<u8>)
    requires
        lines.contains(row),
        !is_note_cell(row, col, notes),
    ensures
        col == 0 ==> cell_category(row, col, width, lines, notes) == BoxDrawing::JunctionRight,
        col != 0 && col == width - 1 ==> cell_category(row, col, width, lines, notes)
            == BoxDrawing::JunctionLeft,
        col != 0 && col != width - 1 && col % 16 == 0 ==> cell_category(
            row, col, width, lines, notes,
        ) == BoxDrawing::JunctionCross,
        col != 0 && col != width - 1 && col % 16 != 0 ==> cell_category(
            row, col, width, lines, notes,
        ) == BoxDrawing::Horizontal,
{
}

} // verus!
