//! Level files: a rectangular character grid read from a text blob, one row
//! per non-empty line.

use vstd::prelude::*;
use vstd::string::StrSliceExecFns;

verus! {

/// The rows of a character stream scanned so far: the completed non-empty
/// lines, and the line still being read. A line break closes the current
/// line, keeping it only if it is non-empty.
pub open spec fn spec_scan_rows(s: Seq<char>) -> (Seq<Seq<char>>, Seq<char>)
    decreases s.len(),
{
    if s.len() == 0 {
        (Seq::empty(), Seq::empty())
    } else {
        let p = spec_scan_rows(s.drop_last());
        if s.last() == '\n' {
            if p.1.len() == 0 {
                (p.0, Seq::empty())
            } else {
                (p.0.push(p.1), Seq::empty())
            }
        } else {
            (p.0, p.1.push(s.last()))
        }
    }
}

/// The non-empty lines of a character stream, a final line without a line
/// break included.
pub open spec fn spec_grid_rows(s: Seq<char>) -> Seq<Seq<char>> {
    let p = spec_scan_rows(s);
    if p.1.len() == 0 {
        p.0
    } else {
        p.0.push(p.1)
    }
}

/// The rows of a grid as sequences.
pub open spec fn view_rows(g: Seq<Vec<char>>) -> Seq<Seq<char>> {
    g.map_values(|v: Vec<char>| v@)
}

/// A parsed level file: the non-empty lines as a character grid, with the
/// row count and the width of the first row.
#[derive(Debug)]
pub struct LevelFile {
    pub n_rows: usize,
    pub n_columns: usize,
    pub grid: Vec<Vec<char>>,
}

impl LevelFile {
    /// Parses a level file: every non-empty line becomes a row, `n_rows` the
    /// number of rows and `n_columns` the width of the first row.
    pub fn new(file_contents: &str) -> (r: LevelFile)
        requires
            spec_grid_rows(file_contents@).len() > 0,
        ensures
            view_rows(r.grid@) == spec_grid_rows(file_contents@),
            r.n_rows == spec_grid_rows(file_contents@).len(),
            r.n_columns == spec_grid_rows(file_contents@)[0].len(),
    {
        let n: usize = file_contents.unicode_len();
        let mut grid: Vec<Vec<char>> = Vec::new();
        let mut current: Vec<char> = Vec::new();
        let mut i: usize = 0;
        while i < n
            invariant
                n == file_contents@.len(),
                0 <= i <= n,
                (view_rows(grid@), current@) == spec_scan_rows(file_contents@.take(i as int)),
            decreases n - i,
        {
            let c: char = file_contents.get_char(i);
            let ghost pre_rows = view_rows(grid@);
            if c == '\n' {
                if current.len() > 0 {
                    grid.push(current);
                    proof {
                        assert(view_rows(grid@) =~= pre_rows.push(current@));
                    }
                    current = Vec::new();
                } else {
                    current = Vec::new();
                }
            } else {
                current.push(c);
            }
            proof {
                assert(file_contents@.take(i + 1 as int).drop_last() =~= file_contents@.take(
                    i as int,
                ));
                assert(file_contents@.take(i + 1 as int).last() == file_contents@[i as int]);
                assert(view_rows(grid@) =~= spec_scan_rows(file_contents@.take(i + 1 as int)).0);
                assert(current@ =~= spec_scan_rows(file_contents@.take(i + 1 as int)).1);
            }
            i = i + 1;
        }
        proof {
            assert(file_contents@.take(n as int) =~= file_contents@);
        }
        let ghost pre_rows = view_rows(grid@);
        if current.len() > 0 {
            grid.push(current);
            proof {
                assert(view_rows(grid@) =~= pre_rows.push(current@));
            }
        }
        proof {
            assert(view_rows(grid@) =~= spec_grid_rows(file_contents@));
        }
        let n_rows: usize = grid.len();
        let n_columns: usize = grid[0].len();
        proof {
            assert(grid@[0]@ == view_rows(grid@)[0]);
        }
        LevelFile { n_rows, n_columns, grid }
    }

    /// The character at a grid cell.
    pub fn get(&self, row: usize, column: usize) -> (r: char)
        requires
            row < self.grid@.len(),
            column < self.grid@[row as int]@.len(),
        ensures
            r == self.grid@[row as int]@[column as int],
    {
        self.grid[row][column]
    }
}

} // verus!
