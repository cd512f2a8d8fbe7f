//! Setting up positions, and the board snapshot that a renderer draws.
use vstd::prelude::*;
use vstd::string::StringSliceAdditionalSpecFns;
use crate::board::{empty_game, valid_pos, BoardPosition, BoardSquare, Color, GameModel, GameState, Piece};

verus! {

/// The piece that a lower-case layout letter names (ASCII `p r b n q k`).
pub open spec fn piece_of_letter(c: u8) -> Option<Piece> {
    if c == 112 {
        Some(Piece::Pawn(false))
    } else if c == 114 {
        Some(Piece::Rook)
    } else if c == 98 {
        Some(Piece::Bishop)
    } else if c == 110 {
        Some(Piece::Knight)
    } else if c == 113 {
        Some(Piece::Queen)
    } else if c == 107 {
        Some(Piece::King)
    } else {
        None
    }
}

/// The square that a layout byte stands for: `.` (46) is empty, a lower-case
/// letter a black piece and an upper-case letter a white one.
pub open spec fn square_of_byte(c: u8) -> Option<BoardSquare> {
    if c == 46 {
        Some(BoardSquare::Empty)
    } else if 97 <= c <= 122 {
        match piece_of_letter(c) {
            Some(p) => Some(BoardSquare::Occupied(p, Color::Black)),
            None => None,
        }
    } else if 65 <= c <= 90 {
        match piece_of_letter((c + 32) as u8) {
            Some(p) => Some(BoardSquare::Occupied(p, Color::White)),
            None => None,
        }
    } else {
        None
    }
}

/// A layout: 64 bytes, rank 0 first, each naming a square.
pub open spec fn valid_layout(b: Seq<u8>) -> bool {
    b.len() == 64 && forall|i: int| 0 <= i < 64 ==> (#[trigger] square_of_byte(b[i])) is Some
}

/// The piece that starts on file `f` of a back rank.
pub open spec fn home_piece(f: int) -> Piece {
    if f == 0 || f == 7 {
        Piece::Rook
    } else if f == 1 || f == 6 {
        Piece::Knight
    } else if f == 2 || f == 5 {
        Piece::Bishop
    } else if f == 3 {
        Piece::Queen
    } else {
        Piece::King
    }
}

/// The square (f, r) of the standard starting position.
pub open spec fn initial_square(f: int, r: int) -> BoardSquare {
    if r == 0 {
        BoardSquare::Occupied(home_piece(f), Color::Black)
    } else if r == 1 {
        BoardSquare::Occupied(Piece::Pawn(false), Color::Black)
    } else if r == 6 {
        BoardSquare::Occupied(Piece::Pawn(false), Color::White)
    } else if r == 7 {
        BoardSquare::Occupied(home_piece(f), Color::White)
    } else {
        BoardSquare::Empty
    }
}

pub open spec fn is_initial(g: GameModel) -> bool {
    &&& g.wf()
    &&& forall|p: BoardPosition| valid_pos(p) ==> #[trigger] g.sq(p) == initial_square(p.0 as int, p.1 as int)
    &&& g.turn == Color::White
    &&& g.white_can_castle_left && g.white_can_castle_right
    &&& g.black_can_castle_left && g.black_can_castle_right
    &&& g.en_passant_square is None
}

/// The square that a layout byte stands for, if any.
pub fn c_to_sq(c: u8) -> (r: Option<BoardSquare>)
    ensures
        r == square_of_byte(c),
{
    let color = if 97 <= c && c <= 122 {
        Color::Black
    } else {
        Color::White
    };
    let lower = if 65 <= c && c <= 90 {
        c + 32
    } else {
        c
    };
    if c == 46 {
        return Some(BoardSquare::Empty);
    }
    if !(97 <= lower && lower <= 122) {
        return None;
    }
    let piece = if lower == 112 {
        Piece::Pawn(false)
    } else if lower == 114 {
        Piece::Rook
    } else if lower == 98 {
        Piece::Bishop
    } else if lower == 110 {
        Piece::Knight
    } else if lower == 113 {
        Piece::Queen
    } else if lower == 107 {
        Piece::King
    } else {
        return None;
    };
    Some(BoardSquare::Occupied(piece, color))
}

fn home_piece_at(f: usize) -> (r: Piece)
    ensures
        r == home_piece(f as int),
{
    if f == 0 || f == 7 {
        Piece::Rook
    } else if f == 1 || f == 6 {
        Piece::Knight
    } else if f == 2 || f == 5 {
        Piece::Bishop
    } else if f == 3 {
        Piece::Queen
    } else {
        Piece::King
    }
}

/// What a renderer needs: the game and the square to highlight.
pub struct Board {
    pub game_state: GameState,
    pub highlight: Option<BoardPosition>,
}

impl Board {
    pub open spec fn wf(&self) -> bool {
        &&& self.game_state.wf()
        &&& self.highlight matches Some(p) ==> valid_pos(p)
    }

    /// An empty board, White to move, nothing highlighted.
    pub fn new() -> (r: Board)
        ensures
            r.wf(),
            r.game_state@ == empty_game(),
            r.highlight is None,
    {
        Board { game_state: GameState::new(), highlight: None }
    }

    /// Sets up the standard starting position with White to move.
    pub fn setup_new_game(&mut self)
        requires
            old(self).wf(),
        ensures
            final(self).wf(),
            is_initial(final(self).game_state@),
            final(self).highlight == old(self).highlight,
    {
        let mut r: usize = 0;
        while r < 8
            invariant
                r <= 8,
                self.wf(),
                forall|p: BoardPosition|
                    valid_pos(p) && p.1 < r ==> #[trigger] self.game_state@.sq(p) == initial_square(
                        p.0 as int,
                        p.1 as int,
                    ),
                self.highlight == old(self).highlight,
            decreases 8 - r,
        {
            let mut f: usize = 0;
            while f < 8
                invariant
                    r < 8,
                    f <= 8,
                    self.wf(),
                    forall|p: BoardPosition|
                        valid_pos(p) && (p.1 < r || (p.1 == r && p.0 < f))
                            ==> #[trigger] self.game_state@.sq(p) == initial_square(
                            p.0 as int,
                            p.1 as int,
                        ),
                    self.highlight == old(self).highlight,
                decreases 8 - f,
            {
                let s = if r == 0 {
                    BoardSquare::Occupied(home_piece_at(f), Color::Black)
                } else if r == 1 {
                    BoardSquare::Occupied(Piece::Pawn(false), Color::Black)
                } else if r == 6 {
                    BoardSquare::Occupied(Piece::Pawn(false), Color::White)
                } else if r == 7 {
                    BoardSquare::Occupied(home_piece_at(f), Color::White)
                } else {
                    BoardSquare::Empty
                };
                let ghost prev = self.game_state@;
                self.game_state.set_square(BoardPosition(f, r), s);
                assert forall|p: BoardPosition|
                    valid_pos(p) && (p.1 < r || (p.1 == r && p.0 <= f)) implies #[trigger] self.game_state@.sq(
                    p,
                ) == initial_square(p.0 as int, p.1 as int) by {
                    if p != BoardPosition(f, r) {
                        assert(prev.sq(p) == initial_square(p.0 as int, p.1 as int));
                    }
                }
                f = f + 1;
            }
            r = r + 1;
        }
        let ghost placed = self.game_state@;
        self.game_state.turn = Color::White;
        self.game_state.black_can_castle_left = true;
        self.game_state.black_can_castle_right = true;
        self.game_state.white_can_castle_left = true;
        self.game_state.white_can_castle_right = true;
        self.game_state.en_passant_square = None;
        assert forall|p: BoardPosition| valid_pos(p) implies #[trigger] self.game_state@.sq(p)
            == initial_square(p.0 as int, p.1 as int) by {
            assert(placed.sq(p) == initial_square(p.0 as int, p.1 as int));
        }
    }

    /// Sets up the position that `state` lays out (64 bytes, rank 0 first,
    /// see `c_to_sq`), with the given side to move, castling rights and en
    /// passant square.
    pub fn setup_set_game(
        &mut self,
        state: &str,
        turn: Color,
        bcl: bool,
        bcr: bool,
        wcl: bool,
        wcr: bool,
        eps: Option<BoardPosition>,
    )
        requires
            old(self).wf(),
            valid_layout(state.spec_bytes()),
            eps matches Some(p) ==> valid_pos(p),
        ensures
            final(self).wf(),
            final(self).game_state@ == (GameModel {
                squares: Seq::new(64, |i: int| square_of_byte(state.spec_bytes()[i])->0),
                turn: turn,
                white_can_castle_left: wcl,
                white_can_castle_right: wcr,
                black_can_castle_left: bcl,
                black_can_castle_right: bcr,
                en_passant_square: eps,
            }),
            final(self).highlight == old(self).highlight,
    {
        let bytes = state.as_bytes();
        let mut i: usize = 0;
        while i < 64
            invariant
                i <= 64,
                bytes@ == state.spec_bytes(),
                valid_layout(bytes@),
                self.wf(),
                forall|j: int|
                    0 <= j < i ==> #[trigger] self.game_state@.squares[j] == square_of_byte(
                        bytes@[j],
                    )->0,
                self.highlight == old(self).highlight,
            decreases 64 - i,
        {
            let s = c_to_sq(bytes[i]);
            assert(square_of_byte(bytes@[i as int]) is Some);
            self.game_state.board_state[i] = s.unwrap();
            i = i + 1;
        }
        self.game_state.turn = turn;
        self.game_state.black_can_castle_left = bcl;
        self.game_state.black_can_castle_right = bcr;
        self.game_state.white_can_castle_left = wcl;
        self.game_state.white_can_castle_right = wcr;
        self.game_state.en_passant_square = eps;
        assert(self.game_state@.squares =~= Seq::new(
            64,
            |i: int| square_of_byte(state.spec_bytes()[i])->0,
        ));
    }

    /// Whether the side to move is checkmated.
    pub fn is_checkmated(&mut self) -> (r: bool)
        requires
            old(self).wf(),
        ensures
            r == old(self).game_state@.is_checkmate(old(self).game_state.turn),
            *final(self) == *old(self),
    {
        let turn = self.game_state.turn;
        self.game_state.is_checkmate(turn)
    }
}

} // verus!
