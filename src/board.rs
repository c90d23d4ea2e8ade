use vstd::prelude::*;
use crate::field::{Field, square, file_index};
use crate::piece::{Piece, Color, Figure};

verus! {

/// The four castling rights, each true until the king or rook concerned has
/// moved or the rook has been captured.
#[derive(Clone, Copy, Debug, PartialEq, Eq, Hash, Structural)]
pub struct CastlingRights {
    pub white_kingside: bool,
    pub white_queenside: bool,
    pub black_kingside: bool,
    pub black_queenside: bool,
}

/// True when moving `p` from `o` to `d` ends the castling right of `color`
/// on the side whose rook starts on `corner`: the king of that color moves,
/// that rook leaves its corner, or a piece lands on the corner, capturing
/// the rook there.
pub open spec fn ends_right(p: Piece, o: Field, d: Field, color: Color, corner: Field) -> bool {
    p == (Piece { color, figure: Figure::King }) || (o == corner && p == (Piece {
        color,
        figure: Figure::Rook,
    })) || d == corner
}

impl CastlingRights {
    /// All four rights held.
    pub open spec fn all() -> CastlingRights {
        CastlingRights {
            white_kingside: true,
            white_queenside: true,
            black_kingside: true,
            black_queenside: true,
        }
    }

    /// The rights after `p` moved from `o` to `d`: a king's move ends both
    /// rights of its color, a rook leaving its corner or a capture on that
    /// corner ends the right of that side.
    pub open spec fn after_move(self, p: Piece, o: Field, d: Field) -> CastlingRights {
        CastlingRights {
            white_kingside: self.white_kingside && !ends_right(p, o, d, Color::White, square(7, 1)),
            white_queenside: self.white_queenside && !ends_right(
                p,
                o,
                d,
                Color::White,
                square(0, 1),
            ),
            black_kingside: self.black_kingside && !ends_right(p, o, d, Color::Black, square(7, 8)),
            black_queenside: self.black_queenside && !ends_right(
                p,
                o,
                d,
                Color::Black,
                square(0, 8),
            ),
        }
    }

    /// The kingside right of `color`.
    pub open spec fn kingside(self, color: Color) -> bool {
        match color {
            Color::White => self.white_kingside,
            Color::Black => self.black_kingside,
        }
    }

    /// The queenside right of `color`.
    pub open spec fn queenside(self, color: Color) -> bool {
        match color {
            Color::White => self.white_queenside,
            Color::Black => self.black_queenside,
        }
    }
}

/// Position of a valid field among the 64 squares: file by file, rank 1 first.
pub open spec fn index_of(f: Field) -> int {
    f.col() * 8 + f.rank - 1
}

/// The en-passant targets after `p` moved from `o` to `d`: the square passed
/// over when a pawn advanced two squares from its starting rank, else none.
pub open spec fn en_passant_after(p: Piece, o: Field, d: Field) -> Seq<Field> {
    if p.figure == Figure::Pawn && o.col() == d.col() && p.color == Color::White && o.rank == 2
        && d.rank == 4 {
        seq![square(o.col(), 3)]
    } else if p.figure == Figure::Pawn && o.col() == d.col() && p.color == Color::Black && o.rank
        == 7 && d.rank == 5 {
        seq![square(o.col(), 6)]
    } else {
        seq![]
    }
}

/// Figure on the back rank at column `c` in the opening layout.
pub open spec fn back_rank_figure(c: int) -> Figure {
    if c == 0 || c == 7 {
        Figure::Rook
    } else if c == 1 || c == 6 {
        Figure::Knight
    } else if c == 2 || c == 5 {
        Figure::Bishop
    } else if c == 3 {
        Figure::Queen
    } else {
        Figure::King
    }
}

/// The piece on valid field `f` in the opening layout, if any.
pub open spec fn opening_piece(f: Field) -> Option<Piece> {
    if f.rank == 1 {
        Some(Piece { color: Color::White, figure: back_rank_figure(f.col()) })
    } else if f.rank == 2 {
        Some(Piece { color: Color::White, figure: Figure::Pawn })
    } else if f.rank == 7 {
        Some(Piece { color: Color::Black, figure: Figure::Pawn })
    } else if f.rank == 8 {
        Some(Piece { color: Color::Black, figure: back_rank_figure(f.col()) })
    } else {
        None
    }
}

/// The occupancy of the opening layout.
pub open spec fn opening_occupancy() -> Map<Field, Piece> {
    Map::new(|f: Field| f.wf() && opening_piece(f) is Some, |f: Field| opening_piece(f).unwrap())
}

/// Dereferences an optional piece reference.
pub open spec fn deref_piece(o: Option<&Piece>) -> Option<Piece> {
    match o {
        Some(p) => Some(*p),
        None => None,
    }
}

/// The figure on the back rank at column `c` in the opening layout.
fn back_rank_figure_at(c: u8) -> (f: Figure)
    requires
        c < 8,
    ensures
        f == back_rank_figure(c as int),
{
    match c {
        0 | 7 => Figure::Rook,
        1 | 6 => Figure::Knight,
        2 | 5 => Figure::Bishop,
        3 => Figure::Queen,
        _ => Figure::King,
    }
}

/// The en-passant targets after `p` moved from `o` to `d`.
fn en_passant_targets_after(p: Piece, o: &Field, d: &Field) -> (v: Vec<Field>)
    requires
        o.wf(),
        d.wf(),
    ensures
        v@ == en_passant_after(p, *o, *d),
{
    let mut v: Vec<Field> = Vec::new();
    let c = o.column();
    if p.figure == Figure::Pawn && c == d.column() {
        match p.color {
            Color::White => {
                if o.rank == 2 && d.rank == 4 {
                    v.push(Field::at(c, 3));
                }
            },
            Color::Black => {
                if o.rank == 7 && d.rank == 5 {
                    v.push(Field::at(c, 6));
                }
            },
        }
    }
    assert(v@ =~= en_passant_after(p, *o, *d));
    v
}

/// Whether moving `p` from `o` to `d` ends the right of `color` on the
/// side whose rook starts on `corner`.
fn right_ended(p: Piece, o: &Field, d: &Field, color: Color, corner: &Field) -> (b: bool)
    ensures
        b == ends_right(p, *o, *d, color, *corner),
{
    let king = Piece { color, figure: Figure::King };
    let rook = Piece { color, figure: Figure::Rook };
    p == king || (*o == *corner && p == rook) || *d == *corner
}

/// The castling rights `r` after `p` moved from `o` to `d`.
fn rights_after(r: CastlingRights, p: Piece, o: &Field, d: &Field) -> (n: CastlingRights)
    ensures
        n == r.after_move(p, *o, *d),
{
    let a1 = Field::at(0, 1);
    let h1 = Field::at(7, 1);
    let a8 = Field::at(0, 8);
    let h8 = Field::at(7, 8);
    CastlingRights {
        white_kingside: r.white_kingside && !right_ended(p, o, d, Color::White, &h1),
        white_queenside: r.white_queenside && !right_ended(p, o, d, Color::White, &a1),
        black_kingside: r.black_kingside && !right_ended(p, o, d, Color::Black, &h8),
        black_queenside: r.black_queenside && !right_ended(p, o, d, Color::Black, &a8),
    }
}

/// A chessboard: which piece stands on each field, the moves made so far,
/// the fields open to an en-passant capture, and the castling rights.
#[derive(Debug)]
pub struct Board {
    squares: Vec<Option<Piece>>,
    move_history: Vec<(Field, Field)>,
    en_passant_possible: Vec<Field>,
    castling: CastlingRights,
}

impl Board {
    /// The board's storage is consistent: one entry per square.
    pub closed spec fn wf(&self) -> bool {
        self.squares@.len() == 64
    }

    /// Which piece stands on each field; a field without a key is empty.
    pub closed spec fn occupancy(&self) -> Map<Field, Piece> {
        Map::new(
            |f: Field| f.wf() && self.squares@[index_of(f)] is Some,
            |f: Field| self.squares@[index_of(f)].unwrap(),
        )
    }

    /// The accepted moves, oldest first, as (origin, destination) pairs.
    pub closed spec fn history(&self) -> Seq<(Field, Field)> {
        self.move_history@
    }

    /// The fields that a pawn may capture onto en passant on the next move.
    pub closed spec fn en_passant(&self) -> Seq<Field> {
        self.en_passant_possible@
    }

    /// The castling rights.
    pub closed spec fn rights(&self) -> CastlingRights {
        self.castling
    }

    /// The piece on `f`, if any.
    pub open spec fn piece_on(&self, f: Field) -> Option<Piece> {
        if self.occupancy().contains_key(f) {
            Some(self.occupancy()[f])
        } else {
            None
        }
    }

    proof fn lemma_piece_on(&self, f: Field)
        requires
            self.wf(),
            f.wf(),
        ensures
            0 <= index_of(f) < 64,
            self.piece_on(f) == self.squares@[index_of(f)],
    {
    }

    /// An empty board with all castling rights and no history.
    pub fn new() -> (b: Board)
        ensures
            b.wf(),
            b.occupancy() == Map::<Field, Piece>::empty(),
            b.history() == Seq::<(Field, Field)>::empty(),
            b.en_passant() == Seq::<Field>::empty(),
            b.rights() == CastlingRights::all(),
    {
        let b = Board {
            squares: Self::empty_squares(),
            move_history: Vec::new(),
            en_passant_possible: Vec::new(),
            castling: CastlingRights {
                white_kingside: true,
                white_queenside: true,
                black_kingside: true,
                black_queenside: true,
            },
        };
        assert(b.occupancy() =~= Map::<Field, Piece>::empty());
        b
    }

    fn empty_squares() -> (v: Vec<Option<Piece>>)
        ensures
            v@.len() == 64,
            forall|i: int| 0 <= i < 64 ==> v@[i] is None,
    {
        let mut v: Vec<Option<Piece>> = Vec::new();
        let mut i: usize = 0;
        while i < 64
            invariant
                i <= 64,
                v@.len() == i,
                forall|j: int| 0 <= j < i ==> v@[j] is None,
            decreases 64 - i,
        {
            v.push(None);
            i = i + 1;
        }
        v
    }

    fn index(f: &Field) -> (i: usize)
        requires
            f.wf(),
        ensures
            i == index_of(*f),
            i < 64,
    {
        let c = f.column();
        c as usize * 8 + f.rank as usize - 1
    }

    /// Places `piece` on `position`, replacing any piece there.
    pub fn add_piece(&mut self, position: Field, piece: Piece)
        requires
            old(self).wf(),
            position.wf(),
        ensures
            final(self).wf(),
            final(self).occupancy() == old(self).occupancy().insert(position, piece),
            final(self).history() == old(self).history(),
            final(self).en_passant() == old(self).en_passant(),
            final(self).rights() == old(self).rights(),
    {
        let i = Self::index(&position);
        self.squares.set(i, Some(piece));
        proof {
            assert forall|f: Field| f.wf() && index_of(f) == i implies f == position by {}
        }
        assert(self.occupancy() =~= old(self).occupancy().insert(position, piece));
    }

    /// Removes any piece from `position`.
    pub fn clear_field(&mut self, position: Field)
        requires
            old(self).wf(),
            position.wf(),
        ensures
            final(self).wf(),
            final(self).occupancy() == old(self).occupancy().remove(position),
            final(self).history() == old(self).history(),
            final(self).en_passant() == old(self).en_passant(),
            final(self).rights() == old(self).rights(),
    {
        let i = Self::index(&position);
        self.squares.set(i, None);
        proof {
            assert forall|f: Field| f.wf() && index_of(f) == i implies f == position by {}
        }
        assert(self.occupancy() =~= old(self).occupancy().remove(position));
    }

    /// The piece on the field at column `c` and rank `r`.
    pub(crate) fn occupant_at(&self, c: u8, r: u8) -> (p: Option<Piece>)
        requires
            self.wf(),
            c < 8,
            1 <= r <= 8,
        ensures
            p == self.piece_on(square(c as int, r as int)),
    {
        let f = Field::at(c, r);
        proof {
            self.lemma_piece_on(f);
        }
        self.squares[Self::index(&f)]
    }

    /// Whether `f` is open to an en-passant capture.
    pub(crate) fn is_en_passant_target(&self, f: &Field) -> (b: bool)
        ensures
            b == self.en_passant().contains(*f),
    {
        let mut i: usize = 0;
        while i < self.en_passant_possible.len()
            invariant
                i <= self.en_passant_possible@.len(),
                forall|j: int| 0 <= j < i ==> self.en_passant_possible@[j] != *f,
            decreases self.en_passant_possible@.len() - i,
        {
            if self.en_passant_possible[i] == *f {
                return true;
            }
            i = i + 1;
        }
        false
    }

    /// The accepted moves, oldest first.
    pub fn move_history(&self) -> (h: &Vec<(Field, Field)>)
        ensures
            h@ == self.history(),
    {
        &self.move_history
    }

    /// The fields open to an en-passant capture on the next move.
    pub fn en_passant_targets(&self) -> (t: &Vec<Field>)
        ensures
            t@ == self.en_passant(),
    {
        &self.en_passant_possible
    }

    /// The castling rights.
    pub fn castling_rights(&self) -> (r: CastlingRights)
        ensures
            r == self.rights(),
    {
        self.castling
    }

    /// The piece on `field`, if any, together with the field itself.
    pub fn get_figure_at_field(&self, field: Field) -> (r: (Option<&Piece>, Field))
        requires
            self.wf(),
        ensures
            deref_piece(r.0) == self.piece_on(field),
            r.1 == field,
    {
        match field.checked_column() {
            None => (None, field),
            Some(c) => {
                let f = Field::at(c, field.rank);
                assert(f == field);
                proof {
                    self.lemma_piece_on(field);
                }
                match &self.squares[Self::index(&field)] {
                    Some(p) => (Some(p), field),
                    None => (None, field),
                }
            },
        }
    }

    /// The piece on the field named by `file` (either case) and `rank`;
    /// nothing when that names no field or the field is empty.
    pub fn get_figure_at_position(&self, file: char, rank: u8) -> (r: Option<&Piece>)
        requires
            self.wf(),
        ensures
            deref_piece(r) == (if 0 <= file_index(file) && 1 <= rank <= 8 {
                self.piece_on(square(file_index(file), rank as int))
            } else {
                None
            }),
    {
        match Field::new(file, rank) {
            None => None,
            Some(field) => self.get_figure_at_field(field).0,
        }
    }

    /// Moves the piece on `origin` to `destination`, replacing any piece
    /// there, records the move, and updates the en-passant targets and the
    /// castling rights. Returns false, and changes nothing, when `origin` is
    /// empty.
    pub fn move_piece(&mut self, origin: Field, destination: Field) -> (moved: bool)
        requires
            old(self).wf(),
            origin.wf(),
            destination.wf(),
        ensures
            final(self).wf(),
            moved == old(self).piece_on(origin) is Some,
            match old(self).piece_on(origin) {
                None => {
                    &&& final(self).occupancy() == old(self).occupancy()
                    &&& final(self).history() == old(self).history()
                    &&& final(self).en_passant() == old(self).en_passant()
                    &&& final(self).rights() == old(self).rights()
                },
                Some(p) => {
                    &&& final(self).occupancy() == old(self).occupancy().remove(origin).insert(
                        destination,
                        p,
                    )
                    &&& final(self).history() == old(self).history().push((origin, destination))
                    &&& final(self).en_passant() == en_passant_after(p, origin, destination)
                    &&& final(self).rights() == old(self).rights().after_move(p, origin, destination)
                },
            },
    {
        proof {
            self.lemma_piece_on(origin);
        }
        let piece = match self.squares[Self::index(&origin)] {
            Some(p) => p,
            None => {
                return false;
            },
        };
        self.clear_field(origin);
        self.add_piece(destination, piece);
        self.move_history.push((origin, destination));
        self.en_passant_possible = en_passant_targets_after(piece, &origin, &destination);
        self.castling = rights_after(self.castling, piece, &origin, &destination);
        true
    }

    /// Clears the board, sets up the opening layout, restores every castling
    /// right and empties the history and the en-passant targets.
    pub fn initial_position(&mut self)
        requires
            old(self).wf(),
        ensures
            final(self).wf(),
            final(self).occupancy() == opening_occupancy(),
            final(self).history() == Seq::<(Field, Field)>::empty(),
            final(self).en_passant() == Seq::<Field>::empty(),
            final(self).rights() == CastlingRights::all(),
    {
        self.reset();
        let mut c: u8 = 0;
        while c < 8
            invariant
                self.wf(),
                c <= 8,
                self.occupancy() == Map::new(
                    |f: Field| f.wf() && f.col() < c && opening_piece(f) is Some,
                    |f: Field| opening_piece(f).unwrap(),
                ),
            decreases 8 - c,
        {
            let ghost before = self.occupancy();
            let figure = back_rank_figure_at(c);
            let w1 = Field::at(c, 1);
            let w2 = Field::at(c, 2);
            let b7 = Field::at(c, 7);
            let b8 = Field::at(c, 8);
            self.add_piece(w1, Piece { color: Color::White, figure });
            self.add_piece(w2, Piece { color: Color::White, figure: Figure::Pawn });
            self.add_piece(b7, Piece { color: Color::Black, figure: Figure::Pawn });
            self.add_piece(b8, Piece { color: Color::Black, figure });
            assert(self.occupancy() =~= Map::new(
                |f: Field| f.wf() && f.col() < c + 1 && opening_piece(f) is Some,
                |f: Field| opening_piece(f).unwrap(),
            ));
            c = c + 1;
        }
        assert(self.occupancy() =~= opening_occupancy());
        self.move_history = Vec::new();
        self.en_passant_possible = Vec::new();
        self.castling = CastlingRights {
            white_kingside: true,
            white_queenside: true,
            black_kingside: true,
            black_queenside: true,
        };
    }

    /// Removes every piece; history, en-passant targets and rights stay.
    fn reset(&mut self)
        requires
            old(self).wf(),
        ensures
            final(self).wf(),
            final(self).occupancy() == Map::<Field, Piece>::empty(),
            final(self).history() == old(self).history(),
            final(self).en_passant() == old(self).en_passant(),
            final(self).rights() == old(self).rights(),
    {
        self.squares = Self::empty_squares();
        assert(self.occupancy() =~= Map::<Field, Piece>::empty());
    }
}

} // verus!
