use vstd::prelude::*;
use crate::field::{Field, square, on_board, file_index};
use crate::piece::{Piece, Color, Figure};
use crate::board::Board;

verus! {

/// The one-element sequence `[f]` when `b` holds, else the empty one.
pub open spec fn when(b: bool, f: Field) -> Seq<Field> {
    if b {
        seq![f]
    } else {
        seq![]
    }
}

/// Knight jumps as (file, rank) offsets, in the order they are tried.
pub open spec fn knight_offsets() -> Seq<(int, int)> {
    seq![(1, 2), (2, 1), (2, -1), (1, -2), (-1, -2), (-2, -1), (-2, 1), (-1, 2)]
}

/// King steps as (file, rank) offsets, clockwise from straight up.
pub open spec fn king_offsets() -> Seq<(int, int)> {
    seq![(0, 1), (1, 1), (1, 0), (1, -1), (0, -1), (-1, -1), (-1, 0), (-1, 1)]
}

/// Rook directions: up, right, down, left.
pub open spec fn rook_dirs() -> Seq<(int, int)> {
    seq![(0, 1), (1, 0), (0, -1), (-1, 0)]
}

/// Bishop directions: up-right, down-right, down-left, up-left.
pub open spec fn bishop_dirs() -> Seq<(int, int)> {
    seq![(1, 1), (1, -1), (-1, -1), (-1, 1)]
}

/// The rank direction in which pawns of `color` advance.
pub open spec fn forward(color: Color) -> int {
    match color {
        Color::White => 1,
        Color::Black => -1,
    }
}

/// The rank on which pawns of `color` start.
pub open spec fn start_rank(color: Color) -> int {
    match color {
        Color::White => 2,
        Color::Black => 7,
    }
}

/// The back rank of `color`, where its king and rooks start.
pub open spec fn home_rank(color: Color) -> int {
    match color {
        Color::White => 1,
        Color::Black => 8,
    }
}

impl Board {
    /// The piece at column `c`, rank `r`; nothing off the board.
    pub open spec fn occupant(&self, c: int, r: int) -> Option<Piece> {
        if on_board(c, r) {
            self.piece_on(square(c, r))
        } else {
            None
        }
    }

    /// `(c, r)` is on the board and empty.
    pub open spec fn is_empty_at(&self, c: int, r: int) -> bool {
        on_board(c, r) && self.occupant(c, r) is None
    }

    /// A piece of `color` may land on `(c, r)`: it is on the board and holds
    /// no piece of that color.
    pub open spec fn can_land(&self, color: Color, c: int, r: int) -> bool {
        on_board(c, r) && match self.occupant(c, r) {
            Some(p) => p.color != color,
            None => true,
        }
    }

    /// Destinations of a piece of `color` on `(c, r)` that jumps by the
    /// offsets `offs`, in their order.
    pub open spec fn leaps(&self, color: Color, c: int, r: int, offs: Seq<(int, int)>) -> Seq<
        Field,
    >
        decreases offs.len(),
    {
        if offs.len() == 0 {
            seq![]
        } else {
            let tc = c + offs.last().0;
            let tr = r + offs.last().1;
            self.leaps(color, c, r, offs.drop_last()) + when(
                self.can_land(color, tc, tr),
                square(tc, tr),
            )
        }
    }

    /// Destinations of a piece of `color` sliding from `(c, r)` in direction
    /// `(dc, dr)` over at most `n` squares: each empty square, then the first
    /// occupied one if it holds an opponent piece.
    pub open spec fn ray(&self, color: Color, c: int, r: int, dc: int, dr: int, n: nat) -> Seq<
        Field,
    >
        decreases n,
    {
        let tc = c + dc;
        let tr = r + dr;
        if n == 0 || !on_board(tc, tr) {
            seq![]
        } else {
            match self.occupant(tc, tr) {
                None => seq![square(tc, tr)] + self.ray(color, tc, tr, dc, dr, (n - 1) as nat),
                Some(p) => when(p.color != color, square(tc, tr)),
            }
        }
    }

    /// The rays from `(c, r)` in each direction of `dirs`, in their order.
    pub open spec fn rays(&self, color: Color, c: int, r: int, dirs: Seq<(int, int)>) -> Seq<
        Field,
    >
        decreases dirs.len(),
    {
        if dirs.len() == 0 {
            seq![]
        } else {
            self.rays(color, c, r, dirs.drop_last()) + self.ray(
                color,
                c,
                r,
                dirs.last().0,
                dirs.last().1,
                7,
            )
        }
    }

    /// A pawn of `color` on `(c, r)` may capture onto `(c2, r2)`: an opponent
    /// piece stands there, or it is an en-passant target.
    pub open spec fn pawn_may_capture(&self, color: Color, c2: int, r2: int) -> bool {
        on_board(c2, r2) && (match self.occupant(c2, r2) {
            Some(p) => p.color != color,
            None => false,
        } || self.en_passant().contains(square(c2, r2)))
    }

    /// Pawn destinations: one step forward, the capture to the left, the
    /// capture to the right, two steps forward from the starting rank.
    pub open spec fn pawn_moves(&self, color: Color, c: int, r: int) -> Seq<Field> {
        let r1 = r + forward(color);
        let r2 = r1 + forward(color);
        if !on_board(c, r1) {
            seq![]
        } else {
            when(self.is_empty_at(c, r1), square(c, r1)) + when(
                self.pawn_may_capture(color, c - 1, r1),
                square(c - 1, r1),
            ) + when(self.pawn_may_capture(color, c + 1, r1), square(c + 1, r1)) + when(
                r == start_rank(color) && self.is_empty_at(c, r1) && self.is_empty_at(c, r2),
                square(c, r2),
            )
        }
    }

    /// Castling destinations of a king of `color` on `(c, r)`: two files
    /// towards a rook, for a king on its home square, where the right is
    /// held and the squares between king and rook are empty.
    pub open spec fn castle_moves(&self, color: Color, c: int, r: int) -> Seq<Field> {
        let h = home_rank(color);
        if c != 4 || r != h {
            seq![]
        } else {
            when(
                self.rights().kingside(color) && self.is_empty_at(5, h) && self.is_empty_at(6, h),
                square(6, h),
            ) + when(
                self.rights().queenside(color) && self.is_empty_at(1, h) && self.is_empty_at(2, h)
                    && self.is_empty_at(3, h),
                square(2, h),
            )
        }
    }

    /// The destinations of the piece on `f`, in generation order; empty when
    /// `f` is invalid or empty.
    pub open spec fn moves(&self, f: Field) -> Seq<Field> {
        if !f.wf() {
            seq![]
        } else {
            let c = f.col();
            let r = f.rank as int;
            match self.piece_on(f) {
                None => seq![],
                Some(p) => match p.figure {
                    Figure::Pawn => self.pawn_moves(p.color, c, r),
                    Figure::Knight => self.leaps(p.color, c, r, knight_offsets()),
                    Figure::Bishop => self.rays(p.color, c, r, bishop_dirs()),
                    Figure::Rook => self.rays(p.color, c, r, rook_dirs()),
                    Figure::Queen => self.rays(p.color, c, r, bishop_dirs()) + self.rays(
                        p.color,
                        c,
                        r,
                        rook_dirs(),
                    ),
                    Figure::King => self.leaps(p.color, c, r, king_offsets()) + self.castle_moves(
                        p.color,
                        c,
                        r,
                    ),
                },
            }
        }
    }
}

/// Offset `i` of the knight's jumps (`knight`) or the king's steps.
fn leap_offset(knight: bool, i: usize) -> (o: (i8, i8))
    requires
        i < 8,
    ensures
        (o.0 as int, o.1 as int) == (if knight {
            knight_offsets()
        } else {
            king_offsets()
        })[i as int],
{
    if knight {
        match i {
            0 => (1, 2),
            1 => (2, 1),
            2 => (2, -1),
            3 => (1, -2),
            4 => (-1, -2),
            5 => (-2, -1),
            6 => (-2, 1),
            _ => (-1, 2),
        }
    } else {
        match i {
            0 => (0, 1),
            1 => (1, 1),
            2 => (1, 0),
            3 => (1, -1),
            4 => (0, -1),
            5 => (-1, -1),
            6 => (-1, 0),
            _ => (-1, 1),
        }
    }
}

impl Board {
    /// Appends the destinations of a knight (`knight`) or king of `color`
    /// on column `c`, rank `r`.
    fn push_leaps(&self, color: Color, c: u8, r: u8, knight: bool, out: &mut Vec<Field>)
        requires
            self.wf(),
            c < 8,
            1 <= r <= 8,
        ensures
            final(out)@ == old(out)@ + self.leaps(
                color,
                c as int,
                r as int,
                if knight {
                    knight_offsets()
                } else {
                    king_offsets()
                },
            ),
    {
        let ghost offs = if knight {
            knight_offsets()
        } else {
            king_offsets()
        };
        let mut i: usize = 0;
        while i < 8
            invariant
                self.wf(),
                c < 8,
                1 <= r <= 8,
                i <= 8,
                offs.len() == 8,
                offs == (if knight {
                    knight_offsets()
                } else {
                    king_offsets()
                }),
                out@ == old(out)@ + self.leaps(color, c as int, r as int, offs.take(i as int)),
            decreases 8 - i,
        {
            let (dc, dr) = leap_offset(knight, i);
            let tc: i8 = c as i8 + dc;
            let tr: i8 = r as i8 + dr;
            let ghost prev = out@;
            if 0 <= tc && tc < 8 && 1 <= tr && tr <= 8 {
                let own = match self.occupant_at(tc as u8, tr as u8) {
                    Some(p) => p.color == color,
                    None => false,
                };
                if !own {
                    out.push(Field::at(tc as u8, tr as u8));
                }
            }
            proof {
                assert(offs.take(i + 1).drop_last() =~= offs.take(i as int));
                assert(offs.take(i + 1).last() == offs[i as int]);
                let s = self.leaps(color, c as int, r as int, offs.take(i as int));
                let w = when(
                    self.can_land(color, tc as int, tr as int),
                    square(tc as int, tr as int),
                );
                assert(out@ =~= prev + w);
                assert(old(out)@ + s + w =~= old(out)@ + (s + w));
            }
            i = i + 1;
        }
        assert(offs.take(8) =~= offs);
    }
}


/// Direction `i` of the bishop (`diagonal`) or the rook.
fn direction(diagonal: bool, i: usize) -> (d: (i8, i8))
    requires
        i < 4,
    ensures
        (d.0 as int, d.1 as int) == (if diagonal {
            bishop_dirs()
        } else {
            rook_dirs()
        })[i as int],
        -1 <= d.0 <= 1,
        -1 <= d.1 <= 1,
{
    if diagonal {
        match i {
            0 => (1, 1),
            1 => (1, -1),
            2 => (-1, -1),
            _ => (-1, 1),
        }
    } else {
        match i {
            0 => (0, 1),
            1 => (1, 0),
            2 => (0, -1),
            _ => (-1, 0),
        }
    }
}

impl Board {
    /// Appends the destinations along one ray of a sliding piece of `color`.
    fn push_ray(&self, color: Color, c: u8, r: u8, dc: i8, dr: i8, out: &mut Vec<Field>)
        requires
            self.wf(),
            c < 8,
            1 <= r <= 8,
            -1 <= dc <= 1,
            -1 <= dr <= 1,
        ensures
            final(out)@ == old(out)@ + self.ray(color, c as int, r as int, dc as int, dr as int, 7),
    {
        let ghost total = self.ray(color, c as int, r as int, dc as int, dr as int, 7);
        let mut cc: i8 = c as i8;
        let mut rr: i8 = r as i8;
        let mut n: u8 = 7;
        while n > 0
            invariant
                self.wf(),
                0 <= cc < 8,
                1 <= rr <= 8,
                -1 <= dc <= 1,
                -1 <= dr <= 1,
                n <= 7,
                total == self.ray(color, c as int, r as int, dc as int, dr as int, 7),
                out@ + self.ray(color, cc as int, rr as int, dc as int, dr as int, n as nat)
                    == old(out)@ + total,
            decreases n,
        {
            let tc: i8 = cc + dc;
            let tr: i8 = rr + dr;
            if tc < 0 || tc >= 8 || tr < 1 || tr > 8 {
                assert(out@ =~= old(out)@ + total);
                return;
            }
            let ghost prev = out@;
            match self.occupant_at(tc as u8, tr as u8) {
                None => {
                    out.push(Field::at(tc as u8, tr as u8));
                    let ghost rest = self.ray(
                        color,
                        tc as int,
                        tr as int,
                        dc as int,
                        dr as int,
                        (n - 1) as nat,
                    );
                    assert(prev + (seq![square(tc as int, tr as int)] + rest) =~= out@ + rest);
                    cc = tc;
                    rr = tr;
                    n = n - 1;
                },
                Some(p) => {
                    if p.color != color {
                        out.push(Field::at(tc as u8, tr as u8));
                    }
                    assert(out@ =~= old(out)@ + total);
                    return;
                },
            }
        }
        assert(out@ =~= old(out)@ + total);
    }

    /// Appends the destinations along every bishop (`diagonal`) or rook ray.
    fn push_rays(&self, color: Color, c: u8, r: u8, diagonal: bool, out: &mut Vec<Field>)
        requires
            self.wf(),
            c < 8,
            1 <= r <= 8,
        ensures
            final(out)@ == old(out)@ + self.rays(
                color,
                c as int,
                r as int,
                if diagonal {
                    bishop_dirs()
                } else {
                    rook_dirs()
                },
            ),
    {
        let ghost dirs = if diagonal {
            bishop_dirs()
        } else {
            rook_dirs()
        };
        let mut i: usize = 0;
        while i < 4
            invariant
                self.wf(),
                c < 8,
                1 <= r <= 8,
                i <= 4,
                dirs.len() == 4,
                dirs == (if diagonal {
                    bishop_dirs()
                } else {
                    rook_dirs()
                }),
                out@ == old(out)@ + self.rays(color, c as int, r as int, dirs.take(i as int)),
            decreases 4 - i,
        {
            let (dc, dr) = direction(diagonal, i);
            let ghost prev = out@;
            self.push_ray(color, c, r, dc, dr, out);
            proof {
                assert(dirs.take(i + 1).drop_last() =~= dirs.take(i as int));
                assert(dirs.take(i + 1).last() == dirs[i as int]);
                let s = self.rays(color, c as int, r as int, dirs.take(i as int));
                let w = self.ray(color, c as int, r as int, dc as int, dr as int, 7);
                assert(old(out)@ + s + w =~= old(out)@ + (s + w));
            }
            i = i + 1;
        }
        assert(dirs.take(4) =~= dirs);
    }

    /// Whether `(c, r)`, on the board, is empty.
    fn empty_at(&self, c: u8, r: u8) -> (b: bool)
        requires
            self.wf(),
            c < 8,
            1 <= r <= 8,
        ensures
            b == self.is_empty_at(c as int, r as int),
    {
        self.occupant_at(c, r).is_none()
    }

    /// Whether a pawn of `color` may capture onto `(c, r)`, for `c` in
    /// -1..=8 and `r` on the board.
    fn may_capture(&self, color: Color, c: i8, r: u8) -> (b: bool)
        requires
            self.wf(),
            -1 <= c <= 8,
            1 <= r <= 8,
        ensures
            b == self.pawn_may_capture(color, c as int, r as int),
    {
        if c < 0 || c >= 8 {
            return false;
        }
        let opponent = match self.occupant_at(c as u8, r) {
            Some(p) => p.color != color,
            None => false,
        };
        opponent || self.is_en_passant_target(&Field::at(c as u8, r))
    }

    /// Appends the destinations of a pawn of `color` on column `c`, rank `r`.
    fn push_pawn_moves(&self, color: Color, c: u8, r: u8, out: &mut Vec<Field>)
        requires
            self.wf(),
            c < 8,
            1 <= r <= 8,
        ensures
            final(out)@ == old(out)@ + self.pawn_moves(color, c as int, r as int),
    {
        let fwd: i8 = match color {
            Color::White => 1,
            Color::Black => -1,
        };
        let start: u8 = match color {
            Color::White => 2,
            Color::Black => 7,
        };
        let r1: i8 = r as i8 + fwd;
        if r1 < 1 || r1 > 8 {
            assert(out@ =~= old(out)@ + self.pawn_moves(color, c as int, r as int));
            return;
        }
        let r1 = r1 as u8;
        let ci = c as i8;
        let single = self.empty_at(c, r1);
        let left = self.may_capture(color, ci - 1, r1);
        let right = self.may_capture(color, ci + 1, r1);
        let r2: i8 = r1 as i8 + fwd;
        let double = r == start && single && 1 <= r2 && r2 <= 8 && self.empty_at(c, r2 as u8);
        if single {
            out.push(Field::at(c, r1));
        }
        if left {
            out.push(Field::at(c - 1, r1));
        }
        if right {
            out.push(Field::at(c + 1, r1));
        }
        if double {
            out.push(Field::at(c, r2 as u8));
        }
        assert(out@ =~= old(out)@ + self.pawn_moves(color, c as int, r as int));
    }

    /// Appends the castling destinations of a king of `color` on column `c`,
    /// rank `r`.
    fn push_castle_moves(&self, color: Color, c: u8, r: u8, out: &mut Vec<Field>)
        requires
            self.wf(),
            c < 8,
            1 <= r <= 8,
        ensures
            final(out)@ == old(out)@ + self.castle_moves(color, c as int, r as int),
    {
        let rights = self.castling_rights();
        let (h, kingside, queenside) = match color {
            Color::White => (1u8, rights.white_kingside, rights.white_queenside),
            Color::Black => (8u8, rights.black_kingside, rights.black_queenside),
        };
        if c != 4 || r != h {
            assert(out@ =~= old(out)@ + self.castle_moves(color, c as int, r as int));
            return;
        }
        if kingside && self.empty_at(5, h) && self.empty_at(6, h) {
            out.push(Field::at(6, h));
        }
        if queenside && self.empty_at(1, h) && self.empty_at(2, h) && self.empty_at(3, h) {
            out.push(Field::at(2, h));
        }
        assert(out@ =~= old(out)@ + self.castle_moves(color, c as int, r as int));
    }

    /// The destinations the piece on `position` may move to, in generation
    /// order; empty when no piece stands there.
    pub fn get_possible_moves(&self, position: Field) -> (v: Vec<Field>)
        requires
            self.wf(),
        ensures
            v@ == self.moves(position),
    {
        let mut out: Vec<Field> = Vec::new();
        let c = match position.checked_column() {
            Some(c) => c,
            None => {
                return out;
            },
        };
        let r = position.rank;
        let p = match self.occupant_at(c, r) {
            Some(p) => p,
            None => {
                return out;
            },
        };
        match p.figure {
            Figure::Pawn => self.push_pawn_moves(p.color, c, r, &mut out),
            Figure::Knight => self.push_leaps(p.color, c, r, true, &mut out),
            Figure::Bishop => self.push_rays(p.color, c, r, true, &mut out),
            Figure::Rook => self.push_rays(p.color, c, r, false, &mut out),
            Figure::Queen => {
                self.push_rays(p.color, c, r, true, &mut out);
                self.push_rays(p.color, c, r, false, &mut out);
            },
            Figure::King => {
                self.push_leaps(p.color, c, r, false, &mut out);
                self.push_castle_moves(p.color, c, r, &mut out);
            },
        }
        assert(out@ =~= self.moves(position));
        out
    }

    /// The destinations of the piece on the field named by `file` (either
    /// case) and `rank`; empty when that names no field or the field is
    /// empty.
    pub fn get_possible_moves_at_position(&self, file: char, rank: u8) -> (v: Vec<Field>)
        requires
            self.wf(),
        ensures
            v@ == (if 0 <= file_index(file) && 1 <= rank <= 8 {
                self.moves(square(file_index(file), rank as int))
            } else {
                Seq::<Field>::empty()
            }),
    {
        match Field::new(file, rank) {
            None => Vec::new(),
            Some(field) => self.get_possible_moves(field),
        }
    }
}

} // verus!
