use vstd::prelude::*;

verus! {

/// The kind of a chess piece.
#[derive(Clone, Copy, Debug, PartialEq, Eq, Hash, Structural)]
pub enum Figure {
    Pawn,
    Rook,
    Knight,
    Bishop,
    Queen,
    King,
}

/// The side a piece belongs to.
#[derive(Clone, Copy, Debug, PartialEq, Eq, Hash, Structural)]
pub enum Color {
    Black,
    White,
}

/// A piece: a color and a figure.
#[derive(Clone, Copy, Debug, PartialEq, Eq, Hash, Structural)]
pub struct Piece {
    pub color: Color,
    pub figure: Figure,
}

/// The figure named by a letter `k, q, r, b, n, p` in either case.
pub open spec fn figure_of_char(c: char) -> Option<Figure> {
    if c == 'k' || c == 'K' {
        Some(Figure::King)
    } else if c == 'q' || c == 'Q' {
        Some(Figure::Queen)
    } else if c == 'r' || c == 'R' {
        Some(Figure::Rook)
    } else if c == 'b' || c == 'B' {
        Some(Figure::Bishop)
    } else if c == 'n' || c == 'N' {
        Some(Figure::Knight)
    } else if c == 'p' || c == 'P' {
        Some(Figure::Pawn)
    } else {
        None
    }
}

/// The lower-case letter of a figure.
pub open spec fn lower_letter(f: Figure) -> char {
    match f {
        Figure::King => 'k',
        Figure::Queen => 'q',
        Figure::Rook => 'r',
        Figure::Bishop => 'b',
        Figure::Knight => 'n',
        Figure::Pawn => 'p',
    }
}

/// The upper-case letter of a figure.
pub open spec fn upper_letter(f: Figure) -> char {
    match f {
        Figure::King => 'K',
        Figure::Queen => 'Q',
        Figure::Rook => 'R',
        Figure::Bishop => 'B',
        Figure::Knight => 'N',
        Figure::Pawn => 'P',
    }
}

/// The color named by the flag `white`.
pub open spec fn color_of(white: bool) -> Color {
    if white {
        Color::White
    } else {
        Color::Black
    }
}

impl Piece {
    /// The display letter of the piece: upper case for White, lower case
    /// for Black.
    pub open spec fn code(self) -> char {
        match self.color {
            Color::White => upper_letter(self.figure),
            Color::Black => lower_letter(self.figure),
        }
    }

    /// Builds the piece of color White when `white` holds (else Black) and of
    /// the figure whose letter is `figure_char`, in either case; nothing for
    /// any other character.
    pub fn new(white: bool, figure_char: char) -> (r: Option<Piece>)
        ensures
            r == (match figure_of_char(figure_char) {
                Some(f) => Some(Piece { color: color_of(white), figure: f }),
                None => None::<Piece>,
            }),
    {
        let figure = match figure_char {
            'K' | 'k' => Figure::King,
            'Q' | 'q' => Figure::Queen,
            'R' | 'r' => Figure::Rook,
            'B' | 'b' => Figure::Bishop,
            'N' | 'n' => Figure::Knight,
            'P' | 'p' => Figure::Pawn,
            _ => {
                return None;
            },
        };
        let color = if white {
            Color::White
        } else {
            Color::Black
        };
        Some(Piece { color, figure })
    }

    /// The display letter: the figure's letter, upper case for White and
    /// lower case for Black.
    pub fn command_line_character(&self) -> (c: char)
        ensures
            c == self.code(),
            self.color == Color::White ==> c == upper_letter(self.figure),
            self.color == Color::Black ==> c == lower_letter(self.figure),
    {
        match self.color {
            Color::White => match self.figure {
                Figure::King => 'K',
                Figure::Queen => 'Q',
                Figure::Rook => 'R',
                Figure::Bishop => 'B',
                Figure::Knight => 'N',
                Figure::Pawn => 'P',
            },
            Color::Black => match self.figure {
                Figure::King => 'k',
                Figure::Queen => 'q',
                Figure::Rook => 'r',
                Figure::Bishop => 'b',
                Figure::Knight => 'n',
                Figure::Pawn => 'p',
            },
        }
    }
}

} // verus!
