//! The board model: squares, pieces, side to move, castling rights and the
//! en passant square, together with their mathematical view.
use vstd::prelude::*;
use std::ops::Not;

verus! {

#[derive(Clone, Copy, Debug, PartialEq, Eq, Hash, Structural)]
pub enum Color {
    White,
    Black,
}

pub open spec fn opponent(c: Color) -> Color {
    match c {
        Color::White => Color::Black,
        Color::Black => Color::White,
    }
}

impl Not for Color {
    type Output = Color;

    fn not(self) -> (r: Color)
        ensures
            r == opponent(self),
    {
        match self {
            Color::White => Color::Black,
            Color::Black => Color::White,
        }
    }
}

impl vstd::std_specs::ops::NotSpecImpl for Color {
    open spec fn obeys_not_spec() -> bool {
        true
    }

    open spec fn not_req(self) -> bool {
        true
    }

    open spec fn not_spec(self) -> Color {
        opponent(self)
    }
}

/// A chess piece. A pawn carries whether it has moved, which decides whether
/// it may still advance two squares.
#[derive(Clone, Copy, Debug, PartialEq, Eq, Hash, Structural)]
pub enum Piece {
    Pawn(bool),
    Knight,
    Bishop,
    Rook,
    Queen,
    King,
}

/// A square: empty, or holding a piece of a color.
#[derive(Clone, Copy, Debug, PartialEq, Eq, Hash, Structural)]
pub enum BoardSquare {
    Empty,
    Occupied(Piece, Color),
}

/// A square of the board as (file, rank). Rank 0 is Black's back rank and
/// rank 7 is White's.
#[derive(Clone, Copy, Debug, PartialEq, Eq, Hash, Structural)]
pub struct BoardPosition(pub usize, pub usize);

pub open spec fn valid_pos(p: BoardPosition) -> bool {
    p.0 < 8 && p.1 < 8
}

pub open spec fn pos(f: int, r: int) -> BoardPosition {
    BoardPosition(f as usize, r as usize)
}

/// Index of the square (f, r) in the rank-major list of 64 squares.
pub open spec fn sq_index(f: int, r: int) -> int {
    r * 8 + f
}

/// The rank step of a pawn of color `c`: White moves toward rank 0.
pub open spec fn forward(c: Color) -> int {
    match c {
        Color::White => -1,
        Color::Black => 1,
    }
}

/// The rank on which the rooks of color `c` start.
pub open spec fn back_rank(c: Color) -> int {
    match c {
        Color::White => 7,
        Color::Black => 0,
    }
}

/// Mathematical view of a game: 64 squares in rank-major order and the
/// state that travels with them.
pub struct GameModel {
    pub squares: Seq<BoardSquare>,
    pub turn: Color,
    pub white_can_castle_left: bool,
    pub white_can_castle_right: bool,
    pub black_can_castle_left: bool,
    pub black_can_castle_right: bool,
    /// The square of the pawn that has just advanced two squares, if any.
    pub en_passant_square: Option<BoardPosition>,
}

impl GameModel {
    pub open spec fn wf(self) -> bool {
        &&& self.squares.len() == 64
        &&& self.en_passant_square matches Some(p) ==> valid_pos(p)
    }

    pub open spec fn at(self, f: int, r: int) -> BoardSquare {
        self.squares[sq_index(f, r)]
    }

    pub open spec fn sq(self, p: BoardPosition) -> BoardSquare {
        self.at(p.0 as int, p.1 as int)
    }

    pub open spec fn occupied_by(self, p: BoardPosition, c: Color) -> bool {
        self.sq(p) matches BoardSquare::Occupied(_, pc) && pc == c
    }

    pub open spec fn can_castle(self, c: Color, left: bool) -> bool {
        match (c, left) {
            (Color::White, true) => self.white_can_castle_left,
            (Color::White, false) => self.white_can_castle_right,
            (Color::Black, true) => self.black_can_castle_left,
            (Color::Black, false) => self.black_can_castle_right,
        }
    }

    pub open spec fn with_turn(self, c: Color) -> GameModel {
        GameModel { turn: c, ..self }
    }
}

/// No pieces on the board, White to move, every castling right held.
pub open spec fn empty_game() -> GameModel {
    GameModel {
        squares: Seq::new(64, |i: int| BoardSquare::Empty),
        turn: Color::White,
        white_can_castle_left: true,
        white_can_castle_right: true,
        black_can_castle_left: true,
        black_can_castle_right: true,
        en_passant_square: None,
    }
}

/// The square at index `i` of the rank-major list.
pub open spec fn pos_of_index(i: int) -> BoardPosition {
    BoardPosition((i % 8) as usize, (i / 8) as usize)
}

/// The occupied squares among the first `n` of the rank-major list, in that
/// order, each with what occupies it.
pub open spec fn occupied_prefix(g: GameModel, n: int) -> Seq<(BoardPosition, BoardSquare)>
    decreases n,
{
    if n <= 0 {
        seq![]
    } else if g.squares[n - 1] is Empty {
        occupied_prefix(g, n - 1)
    } else {
        occupied_prefix(g, n - 1).push((pos_of_index(n - 1), g.squares[n - 1]))
    }
}

/// A game in progress.
#[derive(Clone, Copy, Debug)]
pub struct GameState {
    pub board_state: [BoardSquare; 64],
    pub turn: Color,
    pub black_can_castle_left: bool,
    pub white_can_castle_left: bool,
    pub black_can_castle_right: bool,
    pub white_can_castle_right: bool,
    pub en_passant_square: Option<BoardPosition>,
}

impl View for GameState {
    type V = GameModel;

    open spec fn view(&self) -> GameModel {
        GameModel {
            squares: self.board_state@,
            turn: self.turn,
            white_can_castle_left: self.white_can_castle_left,
            white_can_castle_right: self.white_can_castle_right,
            black_can_castle_left: self.black_can_castle_left,
            black_can_castle_right: self.black_can_castle_right,
            en_passant_square: self.en_passant_square,
        }
    }
}

impl GameState {
    pub open spec fn wf(&self) -> bool {
        self@.wf()
    }

    /// An empty board, White to move, every castling right still held.
    pub fn new() -> (r: GameState)
        ensures
            r.wf(),
            r@ == empty_game(),
    {
        let r = GameState {
            board_state: [BoardSquare::Empty; 64],
            turn: Color::White,
            black_can_castle_left: true,
            white_can_castle_left: true,
            black_can_castle_right: true,
            white_can_castle_right: true,
            en_passant_square: None,
        };
        assert(r@.squares =~= empty_game().squares);
        r
    }

    /// What stands on `p`.
    pub fn square(&self, p: BoardPosition) -> (r: BoardSquare)
        requires
            valid_pos(p),
        ensures
            r == self@.sq(p),
    {
        self.board_state[p.1 * 8 + p.0]
    }

    /// Puts `s` on `p`.
    pub(crate) fn set_square(&mut self, p: BoardPosition, s: BoardSquare)
        requires
            valid_pos(p),
        ensures
            final(self)@ == (GameModel {
                squares: old(self)@.squares.update(sq_index(p.0 as int, p.1 as int), s),
                ..old(self)@
            }),
    {
        self.board_state[p.1 * 8 + p.0] = s;
    }

    /// The occupied squares, rank by rank and file by file within a rank,
    /// each with what occupies it.
    pub fn piece_iterator(&self) -> (r: Vec<(BoardPosition, BoardSquare)>)
        ensures
            r@ == occupied_prefix(self@, 64),
    {
        let mut r: Vec<(BoardPosition, BoardSquare)> = Vec::new();
        let mut i: usize = 0;
        while i < 64
            invariant
                i <= 64,
                r@ == occupied_prefix(self@, i as int),
            decreases 64 - i,
        {
            let s = self.board_state[i];
            if s != BoardSquare::Empty {
                r.push((BoardPosition(i % 8, i / 8), s));
            }
            i = i + 1;
        }
        r
    }

    /// Whether `c` still holds the right to castle toward the left (file 0)
    /// or right (file 7) corner.
    pub fn can_castle(&self, c: Color, left: bool) -> (r: bool)
        ensures
            r == self@.can_castle(c, left),
    {
        match (c, left) {
            (Color::White, true) => self.white_can_castle_left,
            (Color::White, false) => self.white_can_castle_right,
            (Color::Black, true) => self.black_can_castle_left,
            (Color::Black, false) => self.black_can_castle_right,
        }
    }

    /// The square of the pawn that has just advanced two squares, if any.
    pub fn en_passant_square(&self) -> (r: Option<BoardPosition>)
        ensures
            r == self@.en_passant_square,
    {
        self.en_passant_square
    }
}

} // verus!
