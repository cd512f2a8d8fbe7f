//! The rules engine: movement geometry, attack detection, move application,
//! full legality and checkmate.
use vstd::prelude::*;
use std::ops::Not;
use crate::board::{
    back_rank, forward, opponent, pos, sq_index, valid_pos, BoardPosition, BoardSquare, Color,
    GameModel, GameState, Piece,
};

verus! {

pub open spec fn abs(x: int) -> int {
    if x < 0 {
        -x
    } else {
        x
    }
}

pub open spec fn max(a: int, b: int) -> int {
    if a < b {
        b
    } else {
        a
    }
}

pub open spec fn dx(from: BoardPosition, to: BoardPosition) -> int {
    to.0 as int - from.0 as int
}

pub open spec fn dy(from: BoardPosition, to: BoardPosition) -> int {
    to.1 as int - from.1 as int
}

/// The coordinate `k` steps from `a` in the direction of the sign of `d`.
pub open spec fn ray(a: int, d: int, k: int) -> int {
    if d > 0 {
        a + k
    } else if d < 0 {
        a - k
    } else {
        a
    }
}

/// The square `k` steps from `from` toward `to`.
pub open spec fn path_pos(from: BoardPosition, to: BoardPosition, k: int) -> BoardPosition {
    pos(ray(from.0 as int, dx(from, to), k), ray(from.1 as int, dy(from, to), k))
}

pub open spec fn is_empty(s: BoardSquare) -> bool {
    s is Empty
}

impl GameModel {
    /// Every square strictly between `from` and `to` on their common line is empty.
    pub open spec fn path_clear(self, from: BoardPosition, to: BoardPosition) -> bool {
        forall|k: int|
            0 < k < max(abs(dx(from, to)), abs(dy(from, to))) ==> is_empty(
                #[trigger] self.sq(path_pos(from, to, k)),
            )
    }

    pub open spec fn rook_move(self, from: BoardPosition, to: BoardPosition) -> bool {
        (dx(from, to) == 0 || dy(from, to) == 0) && self.path_clear(from, to)
    }

    pub open spec fn bishop_move(self, from: BoardPosition, to: BoardPosition) -> bool {
        abs(dx(from, to)) == abs(dy(from, to)) && dx(from, to) != 0 && self.path_clear(from, to)
    }

    /// The movement of the piece on `from` reaches `to` as an attack. A pawn
    /// attacks diagonally forward, and only onto an occupied square unless
    /// `pretend_occupied` holds.
    pub open spec fn attack_ok(
        self,
        from: BoardPosition,
        to: BoardPosition,
        pretend_occupied: bool,
    ) -> bool {
        let x = abs(dx(from, to));
        let y = abs(dy(from, to));
        match self.sq(from) {
            BoardSquare::Occupied(Piece::Knight, _) => (x == 2 && y == 1) || (x == 1 && y == 2),
            BoardSquare::Occupied(Piece::King, _) => x <= 1 && y <= 1,
            BoardSquare::Occupied(Piece::Rook, _) => self.rook_move(from, to),
            BoardSquare::Occupied(Piece::Bishop, _) => self.bishop_move(from, to),
            BoardSquare::Occupied(Piece::Queen, _) => self.bishop_move(from, to) || self.rook_move(
                from,
                to,
            ),
            BoardSquare::Occupied(Piece::Pawn(_), c) => (pretend_occupied || !is_empty(
                self.sq(to),
            )) && x == 1 && dy(from, to) == forward(c),
            BoardSquare::Empty => false,
        }
    }

    /// A piece of color `c` on `q` attacks the square `p`.
    pub open spec fn attacks_from(self, q: BoardPosition, p: BoardPosition, c: Color) -> bool {
        &&& valid_pos(q)
        &&& q != p
        &&& self.occupied_by(q, c)
        &&& self.attack_ok(q, p, true)
    }

    pub open spec fn is_attacked(self, p: BoardPosition, c: Color) -> bool {
        exists|q: BoardPosition| #[trigger] self.attacks_from(q, p, c)
    }

    /// A king of color `c` stands on a square that the other color attacks.
    pub open spec fn in_check(self, c: Color) -> bool {
        exists|k: BoardPosition|
            valid_pos(k) && #[trigger] self.sq(k) == BoardSquare::Occupied(Piece::King, c)
                && self.is_attacked(k, opponent(c))
    }

    pub open spec fn is_legal_start(self, p: BoardPosition) -> bool {
        self.occupied_by(p, self.turn)
    }

    /// A pawn move that is not a capture of a piece standing on `to`: one or
    /// two squares straight ahead, or en passant.
    pub open spec fn pawn_special_ok(
        self,
        from: BoardPosition,
        to: BoardPosition,
        has_moved: bool,
    ) -> bool {
        let dir = forward(self.turn);
        let x = dx(from, to);
        let y = dy(from, to);
        &&& is_empty(self.sq(to))
        &&& if x == 0 {
            y == dir || (y == 2 * dir && !has_moved && is_empty(
                self.at(from.0 as int, from.1 + dir),
            ))
        } else {
            match self.en_passant_square {
                Some(pp) => abs(x) == 1 && y == dir && to.0 == pp.0 && to.1 == pp.1 + dir,
                None => false,
            }
        }
    }

    /// The rook corner that a king castles toward.
    pub open spec fn castle_corner(self, from: BoardPosition, to: BoardPosition) -> BoardPosition {
        pos(
            if dx(from, to) < 0 {
                0
            } else {
                7
            },
            from.1 as int,
        )
    }

    pub open spec fn castle_ok(self, from: BoardPosition, to: BoardPosition) -> bool {
        let x = dx(from, to);
        let corner = self.castle_corner(from, to);
        let enemy = opponent(self.turn);
        &&& dy(from, to) == 0
        &&& abs(x) == 2
        &&& self.can_castle(self.turn, x < 0)
        &&& self.sq(corner) == BoardSquare::Occupied(Piece::Rook, self.turn)
        &&& self.rook_move(from, corner)
        &&& !self.is_attacked(from, enemy)
        &&& !self.is_attacked(pos(from.0 + x / 2, from.1 as int), enemy)
    }

    /// The moves that are not attacks: quiet pawn moves, en passant, castling.
    pub open spec fn special_ok(self, from: BoardPosition, to: BoardPosition) -> bool {
        match self.sq(from) {
            BoardSquare::Occupied(Piece::Pawn(has_moved), _) => self.pawn_special_ok(
                from,
                to,
                has_moved,
            ),
            BoardSquare::Occupied(Piece::King, _) => self.castle_ok(from, to),
            _ => false,
        }
    }

    /// The move passes ownership, occupancy and movement rules, without
    /// regard to the safety of the mover's king.
    pub open spec fn pseudo_legal(self, from: BoardPosition, to: BoardPosition) -> bool {
        &&& self.is_legal_start(from)
        &&& !self.is_legal_start(to)
        &&& (self.attack_ok(from, to, false) || self.special_ok(from, to))
    }

    pub open spec fn is_legal(self, from: BoardPosition, to: BoardPosition) -> bool {
        &&& self.pseudo_legal(from, to)
        &&& !self.apply(from, to).in_check(self.turn)
    }

    /// Color `c` is in check and none of its pieces has a legal move when it
    /// is `c`'s turn.
    pub open spec fn is_checkmate(self, c: Color) -> bool {
        &&& self.in_check(c)
        &&& !exists|p: BoardPosition, q: BoardPosition|
            valid_pos(p) && valid_pos(q) && #[trigger] self.with_turn(c).is_legal(p, q)
    }

    pub open spec fn clear_rights(self, c: Color) -> GameModel {
        match c {
            Color::White => GameModel {
                white_can_castle_left: false,
                white_can_castle_right: false,
                ..self
            },
            Color::Black => GameModel {
                black_can_castle_left: false,
                black_can_castle_right: false,
                ..self
            },
        }
    }

    pub open spec fn clear_right(self, c: Color, left: bool) -> GameModel {
        match (c, left) {
            (Color::White, true) => GameModel { white_can_castle_left: false, ..self },
            (Color::White, false) => GameModel { white_can_castle_right: false, ..self },
            (Color::Black, true) => GameModel { black_can_castle_left: false, ..self },
            (Color::Black, false) => GameModel { black_can_castle_right: false, ..self },
        }
    }

    pub open spec fn put(self, p: BoardPosition, s: BoardSquare) -> GameModel {
        GameModel { squares: self.squares.update(sq_index(p.0 as int, p.1 as int), s), ..self }
    }

    /// The piece on `from` goes to `to` and `from` becomes empty.
    pub open spec fn relocate(self, from: BoardPosition, to: BoardPosition) -> GameModel {
        self.put(to, self.sq(from)).put(from, BoardSquare::Empty)
    }

    /// The board after the piece on `from` moves to `to`, before the turn
    /// passes. The en passant square is already cleared in `self`; `passed`
    /// is its value before the move.
    pub open spec fn apply_piece(
        self,
        from: BoardPosition,
        to: BoardPosition,
        passed: Option<BoardPosition>,
    ) -> GameModel {
        let x = dx(from, to);
        let y = dy(from, to);
        let t = self.turn;
        match self.sq(from) {
            BoardSquare::Occupied(Piece::King, _) => {
                let castled = if abs(x) == 2 {
                    self.put(pos(to.0 - x / 2, to.1 as int), BoardSquare::Occupied(Piece::Rook, t)).put(
                        self.castle_corner(from, to),
                        BoardSquare::Empty,
                    )
                } else {
                    self
                };
                castled.clear_rights(t).relocate(from, to)
            },
            BoardSquare::Occupied(Piece::Pawn(_), _) => {
                let pushed = if abs(y) == 2 {
                    GameModel { en_passant_square: Some(to), ..self }
                } else if abs(x) == 1 && is_empty(self.sq(to)) && passed is Some {
                    self.put(passed->0, BoardSquare::Empty)
                } else {
                    self
                };
                pushed.put(to, BoardSquare::Occupied(Piece::Pawn(true), t)).put(
                    from,
                    BoardSquare::Empty,
                )
            },
            BoardSquare::Occupied(Piece::Rook, _) => {
                let kept = if from.1 == back_rank(t) && from.0 == 0 {
                    self.clear_right(t, true)
                } else if from.1 == back_rank(t) && from.0 == 7 {
                    self.clear_right(t, false)
                } else {
                    self
                };
                kept.relocate(from, to)
            },
            _ => self.relocate(from, to),
        }
    }

    /// The game after the move from `from` to `to`.
    pub open spec fn apply(self, from: BoardPosition, to: BoardPosition) -> GameModel {
        let cleared = GameModel { en_passant_square: None, ..self };
        cleared.apply_piece(from, to, self.en_passant_square).with_turn(opponent(self.turn))
    }
}


pub open spec fn before(q: BoardPosition, f: int, r: int) -> bool {
    q.1 < r || (q.1 == r && q.0 < f)
}

fn abs_diff(a: usize, b: usize) -> (r: usize)
    ensures
        r == abs(b - a),
{
    if a < b {
        b - a
    } else {
        a - b
    }
}

impl GameState {
    fn path_clear(&self, from: BoardPosition, to: BoardPosition) -> (r: bool)
        requires
            valid_pos(from),
            valid_pos(to),
            dx(from, to) == 0 || dy(from, to) == 0 || abs(dx(from, to)) == abs(dy(from, to)),
        ensures
            r == self@.path_clear(from, to),
    {
        let fx = from.0 as i64;
        let fy = from.1 as i64;
        let ddx = to.0 as i64 - fx;
        let ddy = to.1 as i64 - fy;
        let adx = if ddx < 0 {
            -ddx
        } else {
            ddx
        };
        let ady = if ddy < 0 {
            -ddy
        } else {
            ddy
        };
        let n = if adx < ady {
            ady
        } else {
            adx
        };
        let mut k: i64 = 1;
        while k < n
            invariant
                1 <= k,
                n == max(abs(dx(from, to)), abs(dy(from, to))),
                fx == from.0,
                fy == from.1,
                ddx == dx(from, to),
                ddy == dy(from, to),
                valid_pos(from),
                valid_pos(to),
                dx(from, to) == 0 || dy(from, to) == 0 || abs(dx(from, to)) == abs(dy(from, to)),
                forall|j: int| 0 < j < k ==> is_empty(#[trigger] self@.sq(path_pos(from, to, j))),
            decreases n - k,
        {
            let f = if ddx > 0 {
                fx + k
            } else if ddx < 0 {
                fx - k
            } else {
                fx
            };
            let r = if ddy > 0 {
                fy + k
            } else if ddy < 0 {
                fy - k
            } else {
                fy
            };
            let p = BoardPosition(f as usize, r as usize);
            assert(p == path_pos(from, to, k as int));
            if self.square(p) != BoardSquare::Empty {
                return false;
            }
            k = k + 1;
        }
        true
    }

    fn is_valid_rook_move(&self, from: BoardPosition, to: BoardPosition) -> (r: bool)
        requires
            valid_pos(from),
            valid_pos(to),
        ensures
            r == self@.rook_move(from, to),
    {
        if from.0 != to.0 && from.1 != to.1 {
            false
        } else {
            self.path_clear(from, to)
        }
    }

    fn is_valid_bishop_move(&self, from: BoardPosition, to: BoardPosition) -> (r: bool)
        requires
            valid_pos(from),
            valid_pos(to),
        ensures
            r == self@.bishop_move(from, to),
    {
        let adx = abs_diff(from.0, to.0);
        let ady = abs_diff(from.1, to.1);
        if adx != ady || adx == 0 {
            false
        } else {
            self.path_clear(from, to)
        }
    }

    fn is_attacking_movement_ok(
        &self,
        from: BoardPosition,
        to: BoardPosition,
        pretend_occupied: bool,
    ) -> (r: bool)
        requires
            valid_pos(from),
            valid_pos(to),
        ensures
            r == self@.attack_ok(from, to, pretend_occupied),
    {
        let x = abs_diff(from.0, to.0);
        let y = abs_diff(from.1, to.1);
        match self.square(from) {
            BoardSquare::Occupied(Piece::Knight, _) => (x == 2 && y == 1) || (x == 1 && y == 2),
            BoardSquare::Occupied(Piece::King, _) => x <= 1 && y <= 1,
            BoardSquare::Occupied(Piece::Rook, _) => self.is_valid_rook_move(from, to),
            BoardSquare::Occupied(Piece::Bishop, _) => self.is_valid_bishop_move(from, to),
            BoardSquare::Occupied(Piece::Queen, _) => self.is_valid_bishop_move(from, to)
                || self.is_valid_rook_move(from, to),
            BoardSquare::Occupied(Piece::Pawn(_), c) => {
                let forward_ok = match c {
                    Color::White => to.1 + 1 == from.1,
                    Color::Black => from.1 + 1 == to.1,
                };
                (pretend_occupied || self.square(to) != BoardSquare::Empty) && x == 1 && forward_ok
            },
            BoardSquare::Empty => false,
        }
    }

    /// Whether a piece of color `attacker` attacks `pos`. A pawn attacks its
    /// forward diagonals whether or not they are occupied.
    pub fn is_square_attacked(&self, pos: BoardPosition, attacker: Color) -> (r: bool)
        requires
            valid_pos(pos),
        ensures
            r == self@.is_attacked(pos, attacker),
    {
        let mut r: usize = 0;
        while r < 8
            invariant
                r <= 8,
                valid_pos(pos),
                forall|q: BoardPosition|
                    before(q, 0, r as int) ==> !#[trigger] self@.attacks_from(q, pos, attacker),
            decreases 8 - r,
        {
            let mut f: usize = 0;
            while f < 8
                invariant
                    r < 8,
                    f <= 8,
                    valid_pos(pos),
                    forall|q: BoardPosition|
                        before(q, f as int, r as int) ==> !#[trigger] self@.attacks_from(
                            q,
                            pos,
                            attacker,
                        ),
                decreases 8 - f,
            {
                let q = BoardPosition(f, r);
                if q != pos {
                    if let BoardSquare::Occupied(_, c) = self.square(q) {
                        if c == attacker && self.is_attacking_movement_ok(q, pos, true) {
                            assert(self@.attacks_from(q, pos, attacker));
                            return true;
                        }
                    }
                }
                f = f + 1;
            }
            r = r + 1;
        }
        assert forall|q: BoardPosition| !#[trigger] self@.attacks_from(q, pos, attacker) by {
            if valid_pos(q) {
                assert(before(q, 0, 8));
            }
        }
        false
    }

    /// Whether `pos` holds a piece of the side to move.
    pub fn is_legal_start(&self, pos: BoardPosition) -> (r: bool)
        requires
            valid_pos(pos),
        ensures
            r == self@.is_legal_start(pos),
            r == (self@.sq(pos) matches BoardSquare::Occupied(_, c) && c == self@.turn),
    {
        if let BoardSquare::Occupied(_, color) = self.square(pos) {
            color == self.turn
        } else {
            false
        }
    }

    /// Whether a king of color `c` stands on a square attacked by the other color.
    pub fn in_check(&self, c: Color) -> (r: bool)
        ensures
            r == self@.in_check(c),
    {
        let mut r: usize = 0;
        while r < 8
            invariant
                r <= 8,
                forall|k: BoardPosition|
                    valid_pos(k) && before(k, 0, r as int) && #[trigger] self@.sq(k) == BoardSquare::Occupied(
                        Piece::King,
                        c,
                    ) ==> !self@.is_attacked(k, opponent(c)),
            decreases 8 - r,
        {
            let mut f: usize = 0;
            while f < 8
                invariant
                    r < 8,
                    f <= 8,
                    forall|k: BoardPosition|
                        valid_pos(k) && before(k, f as int, r as int) && #[trigger] self@.sq(k)
                            == BoardSquare::Occupied(Piece::King, c) ==> !self@.is_attacked(
                            k,
                            opponent(c),
                        ),
                decreases 8 - f,
            {
                let k = BoardPosition(f, r);
                if self.square(k) == BoardSquare::Occupied(Piece::King, c) {
                    if self.is_square_attacked(k, c.not()) {
                        return true;
                    }
                }
                f = f + 1;
            }
            r = r + 1;
        }
        assert forall|k: BoardPosition|
            valid_pos(k) && #[trigger] self@.sq(k) == BoardSquare::Occupied(
                Piece::King,
                c,
            ) implies !self@.is_attacked(k, opponent(c)) by {
            assert(before(k, 0, 8));
        }
        false
    }

    /// Plays the move from `from` to `to`: the piece lands on `to` (a pawn is
    /// marked as moved), `from` empties and the turn passes. Castling also
    /// moves the rook beside the king, en passant removes the captured pawn,
    /// a double pawn advance records the en passant square, and a king or
    /// corner rook move gives up the castling rights it ends.
    pub fn do_move(&mut self, from_pos: BoardPosition, to_pos: BoardPosition)
        requires
            old(self).wf(),
            valid_pos(from_pos),
            valid_pos(to_pos),
        ensures
            final(self)@ == old(self)@.apply(from_pos, to_pos),
            final(self).wf(),
    {
        let ghost start = self@;
        let old_en_passant_square = self.en_passant_square;
        self.en_passant_square = None;
        let t = self.turn;
        let x = to_pos.0 as i64 - from_pos.0 as i64;
        let y = to_pos.1 as i64 - from_pos.1 as i64;
        match self.square(from_pos) {
            BoardSquare::Occupied(Piece::King, _) => {
                if x == 2 || x == -2 {
                    let rook_x: usize = if x < 0 {
                        0
                    } else {
                        7
                    };
                    let beside = BoardPosition((to_pos.0 as i64 - x / 2) as usize, to_pos.1);
                    assert(beside == pos(to_pos.0 - dx(from_pos, to_pos) / 2, to_pos.1 as int));
                    self.set_square(beside, BoardSquare::Occupied(Piece::Rook, t));
                    self.set_square(BoardPosition(rook_x, from_pos.1), BoardSquare::Empty);
                }
                match t {
                    Color::White => {
                        self.white_can_castle_left = false;
                        self.white_can_castle_right = false;
                    },
                    Color::Black => {
                        self.black_can_castle_left = false;
                        self.black_can_castle_right = false;
                    },
                }
                let moving = self.square(from_pos);
                self.set_square(to_pos, moving);
                self.set_square(from_pos, BoardSquare::Empty);
            },
            BoardSquare::Occupied(Piece::Pawn(_), _) => {
                if y == 2 || y == -2 {
                    self.en_passant_square = Some(to_pos);
                } else if (x == 1 || x == -1) && self.square(to_pos) == BoardSquare::Empty {
                    if let Some(pass_pos) = old_en_passant_square {
                        self.set_square(pass_pos, BoardSquare::Empty);
                    }
                }
                self.set_square(to_pos, BoardSquare::Occupied(Piece::Pawn(true), t));
                self.set_square(from_pos, BoardSquare::Empty);
            },
            BoardSquare::Occupied(Piece::Rook, _) => {
                let back: usize = match t {
                    Color::White => 7,
                    Color::Black => 0,
                };
                if from_pos.1 == back {
                    if from_pos.0 == 0 {
                        match t {
                            Color::White => self.white_can_castle_left = false,
                            Color::Black => self.black_can_castle_left = false,
                        }
                    } else if from_pos.0 == 7 {
                        match t {
                            Color::White => self.white_can_castle_right = false,
                            Color::Black => self.black_can_castle_right = false,
                        }
                    }
                }
                let moving = self.square(from_pos);
                self.set_square(to_pos, moving);
                self.set_square(from_pos, BoardSquare::Empty);
            },
            _ => {
                let moving = self.square(from_pos);
                self.set_square(to_pos, moving);
                self.set_square(from_pos, BoardSquare::Empty);
            },
        }
        self.turn = t.not();
        assert(self@ =~= start.apply(from_pos, to_pos));
    }

    fn is_pawn_special_move_ok(&self, from: BoardPosition, to: BoardPosition, has_moved: bool) -> (r:
        bool)
        requires
            self.wf(),
            valid_pos(from),
            valid_pos(to),
        ensures
            r == self@.pawn_special_ok(from, to, has_moved),
    {
        if self.square(to) != BoardSquare::Empty {
            return false;
        }
        let white = self.turn == Color::White;
        let one = if white {
            to.1 + 1 == from.1
        } else {
            from.1 + 1 == to.1
        };
        if from.0 == to.0 {
            let two = if white {
                to.1 + 2 == from.1
            } else {
                from.1 + 2 == to.1
            };
            if one {
                true
            } else if two && !has_moved {
                let mid = BoardPosition(
                    from.0,
                    if white {
                        from.1 - 1
                    } else {
                        from.1 + 1
                    },
                );
                self.square(mid) == BoardSquare::Empty
            } else {
                false
            }
        } else {
            match self.en_passant_square {
                Some(pp) => abs_diff(from.0, to.0) == 1 && one && to.0 == pp.0 && (if white {
                    to.1 + 1 == pp.1
                } else {
                    pp.1 + 1 == to.1
                }),
                None => false,
            }
        }
    }

    fn is_castling_ok(&self, from: BoardPosition, to: BoardPosition) -> (r: bool)
        requires
            valid_pos(from),
            valid_pos(to),
        ensures
            r == self@.castle_ok(from, to),
    {
        if from.1 != to.1 || abs_diff(from.0, to.0) != 2 {
            return false;
        }
        let left = to.0 < from.0;
        if !self.can_castle(self.turn, left) {
            return false;
        }
        let corner = BoardPosition(
            if left {
                0
            } else {
                7
            },
            from.1,
        );
        if self.square(corner) != BoardSquare::Occupied(Piece::Rook, self.turn) {
            return false;
        }
        if !self.is_valid_rook_move(from, corner) {
            return false;
        }
        let enemy = self.turn.not();
        if self.is_square_attacked(from, enemy) {
            return false;
        }
        let transit = BoardPosition(
            if left {
                from.0 - 1
            } else {
                from.0 + 1
            },
            from.1,
        );
        assert(transit == pos(from.0 + dx(from, to) / 2, from.1 as int));
        !self.is_square_attacked(transit, enemy)
    }

    /// Whether the side to move may play `from_pos` to `to_pos`: it moves
    /// its own piece, does not land on its own piece, follows the piece's
    /// movement (with quiet pawn moves, en passant and castling), and does
    /// not leave its own king attacked.
    pub fn is_legal(&self, from_pos: BoardPosition, to_pos: BoardPosition) -> (r: bool)
        requires
            self.wf(),
            valid_pos(from_pos),
            valid_pos(to_pos),
        ensures
            r == self@.is_legal(from_pos, to_pos),
    {
        if !self.is_legal_start(from_pos) {
            return false;
        }
        if self.is_legal_start(to_pos) {
            return false;
        }
        if !self.is_attacking_movement_ok(from_pos, to_pos, false) {
            let could_be_legal = match self.square(from_pos) {
                BoardSquare::Occupied(Piece::Pawn(has_moved), _) => self.is_pawn_special_move_ok(
                    from_pos,
                    to_pos,
                    has_moved,
                ),
                BoardSquare::Occupied(Piece::King, _) => self.is_castling_ok(from_pos, to_pos),
                _ => false,
            };
            if !could_be_legal {
                return false;
            }
        }
        let mut test_state = *self;
        test_state.do_move(from_pos, to_pos);
        !test_state.in_check(self.turn)
    }

    fn has_legal_move_from(&self, from: BoardPosition) -> (r: bool)
        requires
            self.wf(),
            valid_pos(from),
        ensures
            r == exists|q: BoardPosition| valid_pos(q) && #[trigger] self@.is_legal(from, q),
    {
        let mut r: usize = 0;
        while r < 8
            invariant
                r <= 8,
                self.wf(),
                valid_pos(from),
                forall|q: BoardPosition|
                    valid_pos(q) && before(q, 0, r as int) ==> !#[trigger] self@.is_legal(from, q),
            decreases 8 - r,
        {
            let mut f: usize = 0;
            while f < 8
                invariant
                    r < 8,
                    f <= 8,
                    self.wf(),
                    valid_pos(from),
                    forall|q: BoardPosition|
                        valid_pos(q) && before(q, f as int, r as int) ==> !#[trigger] self@.is_legal(
                            from,
                            q,
                        ),
                decreases 8 - f,
            {
                if self.is_legal(from, BoardPosition(f, r)) {
                    return true;
                }
                f = f + 1;
            }
            r = r + 1;
        }
        assert forall|q: BoardPosition| valid_pos(q) implies !#[trigger] self@.is_legal(from, q) by {
            assert(before(q, 0, 8));
        }
        false
    }

    /// Whether the side to move has any legal move.
    pub fn has_legal_move(&self) -> (r: bool)
        requires
            self.wf(),
        ensures
            r == exists|p: BoardPosition, q: BoardPosition|
                valid_pos(p) && valid_pos(q) && #[trigger] self@.is_legal(p, q),
    {
        let mut r: usize = 0;
        while r < 8
            invariant
                r <= 8,
                self.wf(),
                forall|p: BoardPosition, q: BoardPosition|
                    valid_pos(p) && valid_pos(q) && before(p, 0, r as int) ==> !#[trigger] self@.is_legal(
                        p,
                        q,
                    ),
            decreases 8 - r,
        {
            let mut f: usize = 0;
            while f < 8
                invariant
                    r < 8,
                    f <= 8,
                    self.wf(),
                    forall|p: BoardPosition, q: BoardPosition|
                        valid_pos(p) && valid_pos(q) && before(p, f as int, r as int)
                            ==> !#[trigger] self@.is_legal(p, q),
                decreases 8 - f,
            {
                if self.has_legal_move_from(BoardPosition(f, r)) {
                    return true;
                }
                f = f + 1;
            }
            r = r + 1;
        }
        assert forall|p: BoardPosition, q: BoardPosition|
            valid_pos(p) && valid_pos(q) implies !#[trigger] self@.is_legal(p, q) by {
            assert(before(p, 0, 8));
        }
        false
    }

    /// Whether `defender` is checkmated: its king is attacked and, were it
    /// `defender`'s turn, no move of its pieces would be legal. The side to
    /// move is left as it was.
    pub fn is_checkmate(&mut self, defender: Color) -> (r: bool)
        requires
            old(self).wf(),
        ensures
            r == old(self)@.is_checkmate(defender),
            *final(self) == *old(self),
    {
        if !self.in_check(defender) {
            return false;
        }
        let old_turn = self.turn;
        self.turn = defender;
        let escape = self.has_legal_move();
        self.turn = old_turn;
        !escape
    }
}

} // verus!
