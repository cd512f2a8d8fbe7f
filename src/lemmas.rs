//! Facts about the rules that hold across moves.
use vstd::prelude::*;
use crate::board::{
    back_rank, forward, opponent, pos, valid_pos, BoardPosition, BoardSquare, Color, GameModel,
    Piece,
};
use crate::rules::{abs, dx, dy, is_empty};

verus! {

/// A move that would leave the mover's own king attacked is rejected, even
/// when it follows the piece's movement; every other move that follows the
/// movement rules is accepted.
pub proof fn lemma_self_check_rejected(g: GameModel, from: BoardPosition, to: BoardPosition)
    requires
        g.wf(),
        valid_pos(from),
        valid_pos(to),
    ensures
        g.pseudo_legal(from, to) && g.apply(from, to).in_check(g.turn) ==> !g.is_legal(from, to),
        g.pseudo_legal(from, to) && !g.apply(from, to).in_check(g.turn) ==> g.is_legal(from, to),
{
}

/// A king's two-square sideways move is legal only while its side still
/// holds the right to castle that way, its own rook stands in that corner,
/// every square between king and rook is empty, and neither the square the
/// king starts on, nor the one it crosses, nor the one it lands on is
/// attacked.
pub proof fn lemma_castling_denial(g: GameModel, from: BoardPosition, to: BoardPosition)
    requires
        g.wf(),
        valid_pos(from),
        valid_pos(to),
        g.sq(from) == BoardSquare::Occupied(Piece::King, g.turn),
        abs(dx(from, to)) == 2,
        g.is_legal(from, to),
    ensures
        dy(from, to) == 0,
        g.can_castle(g.turn, dx(from, to) < 0),
        g.sq(g.castle_corner(from, to)) == BoardSquare::Occupied(Piece::Rook, g.turn),
        g.path_clear(from, g.castle_corner(from, to)),
        !g.is_attacked(from, opponent(g.turn)),
        !g.is_attacked(pos(from.0 + dx(from, to) / 2, from.1 as int), opponent(g.turn)),
        !g.apply(from, to).is_attacked(to, opponent(g.turn)),
{
    let h = g.apply(from, to);
    assert(h.sq(to) == BoardSquare::Occupied(Piece::King, g.turn));
}

/// Castling rights never come back, a king move gives up both rights of its
/// side, and a rook leaving its corner gives up the right on that side.
pub proof fn lemma_castling_rights_lost(g: GameModel, from: BoardPosition, to: BoardPosition)
    requires
        g.wf(),
        valid_pos(from),
        valid_pos(to),
    ensures
        forall|c: Color, left: bool|
            #[trigger] g.apply(from, to).can_castle(c, left) ==> g.can_castle(c, left),
        g.sq(from) is Occupied && g.sq(from)->Occupied_0 == Piece::King ==> !g.apply(
            from,
            to,
        ).can_castle(g.turn, true) && !g.apply(from, to).can_castle(g.turn, false),
        g.sq(from) is Occupied && g.sq(from)->Occupied_0 == Piece::Rook && from.1 == back_rank(
            g.turn,
        ) && from.0 == 0 ==> !g.apply(from, to).can_castle(g.turn, true),
        g.sq(from) is Occupied && g.sq(from)->Occupied_0 == Piece::Rook && from.1 == back_rank(
            g.turn,
        ) && from.0 == 7 ==> !g.apply(from, to).can_castle(g.turn, false),
{
}

/// Right after a pawn's legal double advance, an enemy pawn beside it may
/// capture it en passant: the capture onto the square the pawn passed over
/// follows the movement rules, is legal unless it exposes the capturer's
/// king, and removes the advanced pawn.
pub proof fn lemma_en_passant_available(
    g: GameModel,
    from: BoardPosition,
    to: BoardPosition,
    e: BoardPosition,
)
    requires
        g.wf(),
        valid_pos(from),
        valid_pos(to),
        valid_pos(e),
        g.sq(from) is Occupied && g.sq(from)->Occupied_0 is Pawn,
        abs(dy(from, to)) == 2,
        g.is_legal(from, to),
        e.1 == to.1,
        abs(dx(e, to)) == 1,
        g.sq(e) is Occupied && g.sq(e)->Occupied_0 is Pawn && g.sq(e)->Occupied_1 == opponent(
            g.turn,
        ),
    ensures
        ({
            let h = g.apply(from, to);
            let target = pos(to.0 as int, to.1 + forward(h.turn));
            &&& valid_pos(target)
            &&& h.pseudo_legal(e, target)
            &&& h.is_legal(e, target) == !h.apply(e, target).in_check(h.turn)
            &&& is_empty(h.apply(e, target).sq(to))
        }),
{
    let h = g.apply(from, to);
    let target = pos(to.0 as int, to.1 + forward(h.turn));
    assert(dx(from, to) == 0);
    assert(target == pos(from.0 as int, from.1 + forward(g.turn)));
    assert(h.sq(target) == g.sq(target));
    assert(h.sq(e) == g.sq(e));
    assert(h.en_passant_square == Some(to));
    assert(h.pseudo_legal(e, target));
}

/// An en passant capture is legal only as the immediate reply to the double
/// advance it answers: if, after some move, a pawn may move diagonally onto
/// an empty square, that move was a pawn's double advance, and the capture
/// lands on the square the pawn passed over.
pub proof fn lemma_en_passant_expires(
    g: GameModel,
    from: BoardPosition,
    to: BoardPosition,
    e: BoardPosition,
    target: BoardPosition,
)
    requires
        g.wf(),
        valid_pos(from),
        valid_pos(to),
        valid_pos(e),
        valid_pos(target),
        g.apply(from, to).sq(e) is Occupied && g.apply(from, to).sq(e)->Occupied_0 is Pawn,
        e.0 != target.0,
        is_empty(g.apply(from, to).sq(target)),
        g.apply(from, to).is_legal(e, target),
    ensures
        g.sq(from) is Occupied && g.sq(from)->Occupied_0 is Pawn,
        abs(dy(from, to)) == 2,
        target.0 == to.0,
        target.1 == to.1 + forward(g.apply(from, to).turn),
{
}

} // verus!
