use vstd::prelude::*;

verus! {

/// Column index (0 for file A, 7 for file H) of a file letter, in either
/// case; -1 for a character that names no file.
pub open spec fn file_index(c: char) -> int {
    if c == 'A' || c == 'a' {
        0
    } else if c == 'B' || c == 'b' {
        1
    } else if c == 'C' || c == 'c' {
        2
    } else if c == 'D' || c == 'd' {
        3
    } else if c == 'E' || c == 'e' {
        4
    } else if c == 'F' || c == 'f' {
        5
    } else if c == 'G' || c == 'g' {
        6
    } else if c == 'H' || c == 'h' {
        7
    } else {
        -1
    }
}

/// Upper-case letter of the file with column index `i` (0..=7).
pub open spec fn file_letter(i: int) -> char {
    if i == 0 {
        'A'
    } else if i == 1 {
        'B'
    } else if i == 2 {
        'C'
    } else if i == 3 {
        'D'
    } else if i == 4 {
        'E'
    } else if i == 5 {
        'F'
    } else if i == 6 {
        'G'
    } else {
        'H'
    }
}

/// True for a canonical file letter, `'A'` to `'H'`.
pub open spec fn is_upper_file(c: char) -> bool {
    c == 'A' || c == 'B' || c == 'C' || c == 'D' || c == 'E' || c == 'F' || c == 'G' || c == 'H'
}

/// A square of the board: a file `'A'..='H'` and a rank `1..=8`.
#[derive(Clone, Copy, Debug, PartialEq, Eq, Hash, Structural)]
pub struct Field {
    pub file: char,
    pub rank: u8,
}

/// The square at column `c` (0..=7) and rank `r` (1..=8).
pub open spec fn square(c: int, r: int) -> Field {
    Field { file: file_letter(c), rank: r as u8 }
}

/// True when `(c, r)` is on the board: column 0..=7, rank 1..=8.
pub open spec fn on_board(c: int, r: int) -> bool {
    0 <= c < 8 && 1 <= r <= 8
}

/// The square at `(c, r)`, or nothing when that lies off the board.
pub open spec fn square_at(c: int, r: int) -> Option<Field> {
    if on_board(c, r) {
        Some(square(c, r))
    } else {
        None
    }
}

impl Field {
    /// A field is valid when its file is an upper-case letter A to H and its
    /// rank lies in 1 to 8.
    pub open spec fn wf(self) -> bool {
        is_upper_file(self.file) && 1 <= self.rank <= 8
    }

    /// Column index of the field, 0 for file A.
    pub open spec fn col(self) -> int {
        file_index(self.file)
    }

    /// Builds the field at `file` (either case) and `rank`; nothing when the
    /// file is not a letter A to H or the rank is not 1 to 8.
    pub fn new(file: char, rank: u8) -> (r: Option<Field>)
        ensures
            r == (if 0 <= file_index(file) && 1 <= rank <= 8 {
                Some(square(file_index(file), rank as int))
            } else {
                None
            }),
            r matches Some(f) ==> f.wf() && f.rank == rank && f.col() == file_index(file),
    {
        let col: i8 = match file {
            'A' | 'a' => 0,
            'B' | 'b' => 1,
            'C' | 'c' => 2,
            'D' | 'd' => 3,
            'E' | 'e' => 4,
            'F' | 'f' => 5,
            'G' | 'g' => 6,
            'H' | 'h' => 7,
            _ => -1,
        };
        if col < 0 || rank < 1 || rank > 8 {
            None
        } else {
            Some(Field { file: Self::letter(col as u8), rank })
        }
    }

    /// Field at column `col` (0..=7) and rank `rank` (1..=8).
    pub(crate) fn at(col: u8, rank: u8) -> (r: Field)
        requires
            col < 8,
            1 <= rank <= 8,
        ensures
            r == square(col as int, rank as int),
            r.wf(),
            r.col() == col,
    {
        Field { file: Self::letter(col), rank }
    }

    fn letter(col: u8) -> (c: char)
        requires
            col < 8,
        ensures
            c == file_letter(col as int),
    {
        match col {
            0 => 'A',
            1 => 'B',
            2 => 'C',
            3 => 'D',
            4 => 'E',
            5 => 'F',
            6 => 'G',
            _ => 'H',
        }
    }

    /// Column index of a valid field.
    pub fn column(&self) -> (c: u8)
        requires
            self.wf(),
        ensures
            c as int == self.col(),
            c < 8,
    {
        match self.file {
            'A' => 0,
            'B' => 1,
            'C' => 2,
            'D' => 3,
            'E' => 4,
            'F' => 5,
            'G' => 6,
            _ => 7,
        }
    }

    /// Column index of the field, or nothing when the field is not valid.
    pub fn checked_column(&self) -> (c: Option<u8>)
        ensures
            c == (if self.wf() {
                Some(self.col() as u8)
            } else {
                None::<u8>
            }),
    {
        if self.rank < 1 || self.rank > 8 {
            return None;
        }
        match self.file {
            'A' => Some(0),
            'B' => Some(1),
            'C' => Some(2),
            'D' => Some(3),
            'E' => Some(4),
            'F' => Some(5),
            'G' => Some(6),
            'H' => Some(7),
            _ => None,
        }
    }

    /// The field one rank up, or nothing on rank 8.
    pub fn get_top_neighbour(&self) -> (r: Option<Field>)
        requires
            self.wf(),
        ensures
            r == square_at(self.col(), self.rank + 1),
    {
        if self.rank == 8 {
            None
        } else {
            Some(Field::at(self.column(), self.rank + 1))
        }
    }

    /// The field one rank down, or nothing on rank 1.
    pub fn get_bottom_neighbour(&self) -> (r: Option<Field>)
        requires
            self.wf(),
        ensures
            r == square_at(self.col(), self.rank - 1),
    {
        if self.rank == 1 {
            None
        } else {
            Some(Field::at(self.column(), self.rank - 1))
        }
    }

    /// The field one file to the right (towards H), or nothing on file H.
    pub fn get_right_neighbour(&self) -> (r: Option<Field>)
        requires
            self.wf(),
        ensures
            r == square_at(self.col() + 1, self.rank as int),
    {
        let c = self.column();
        if c == 7 {
            None
        } else {
            Some(Field::at(c + 1, self.rank))
        }
    }

    /// The field one file to the left (towards A), or nothing on file A.
    pub fn get_left_neighbour(&self) -> (r: Option<Field>)
        requires
            self.wf(),
        ensures
            r == square_at(self.col() - 1, self.rank as int),
    {
        let c = self.column();
        if c == 0 {
            None
        } else {
            Some(Field::at(c - 1, self.rank))
        }
    }
}

} // verus!
