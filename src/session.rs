//! The turn-taking session between two peers. Each peer keeps its own board;
//! a move is sent only after local checks, and it is played on both boards
//! only once the other peer has checked and acknowledged it.
//!
//! The session decides; its caller does the waiting. The caller feeds it
//! events (a square the local player picked, a packet from the peer), sends
//! whatever packet the step hands back, and redraws the board.
use vstd::prelude::*;
use crate::board::{opponent, valid_pos, BoardPosition, Color, GameModel};
use crate::layout::{is_initial, Board};
use crate::wire::{fits_wire, Packet};

verus! {

/// The phase of a session.
#[derive(Clone, Copy, Debug, PartialEq, Eq, Structural)]
pub enum ChessState {
    /// The local player picks a move.
    MyMove,
    /// The local move was sent; the peer has yet to accept or reject it.
    AwaitAck(BoardPosition, BoardPosition),
    /// The peer is to move; its proposal is awaited.
    OtherMove,
}

/// What the caller hands the session.
#[derive(Clone, Copy, Debug, PartialEq, Eq, Structural)]
pub enum Event {
    /// The local player picked a square.
    Click(BoardPosition),
    /// A packet arrived from the peer.
    Received(Packet),
}

#[derive(Clone, Copy, Debug, PartialEq, Eq, Structural)]
pub enum SessionError {
    /// The peer rejected a move that this side had found legal: the two
    /// boards no longer agree.
    MoveRejected,
}

/// Mathematical view of a session.
pub struct SessionView {
    pub game: GameModel,
    pub highlight: Option<BoardPosition>,
    pub state: ChessState,
    pub color: Color,
}

impl SessionView {
    pub open spec fn wf(self) -> bool {
        &&& self.game.wf()
        &&& self.highlight matches Some(p) ==> valid_pos(p) && self.game.is_legal_start(p)
        &&& match self.state {
            ChessState::MyMove => self.game.turn == self.color,
            ChessState::AwaitAck(from, to) => {
                &&& self.game.turn == self.color
                &&& valid_pos(from) && valid_pos(to)
                &&& self.game.is_legal(from, to)
                &&& self.highlight is None
            },
            ChessState::OtherMove => self.game.turn == opponent(self.color) && self.highlight is None,
        }
    }
}

/// One step of the session on `event`: the session after it and the packet
/// to send, if any.
///
/// - While picking, a first click on one of the player's own pieces selects
///   (highlights) it and any other first click is ignored; the second click
///   clears the selection and, if the move is legal, sends it and awaits the
///   answer.
/// - While awaiting the answer, an acknowledgement plays the move and hands
///   the turn to the peer, a rejection is an error, and anything else is
///   ignored.
/// - While the peer is to move, a legal proposal is played, acknowledged,
///   and the turn comes back; any other proposal is rejected. Other packets
///   are ignored.
pub open spec fn step(s: SessionView, event: Event) -> Result<
    (SessionView, Option<Packet>),
    SessionError,
> {
    match (s.state, event) {
        (ChessState::MyMove, Event::Click(p)) => match s.highlight {
            None => if valid_pos(p) && s.game.is_legal_start(p) {
                Ok((SessionView { highlight: Some(p), ..s }, None))
            } else {
                Ok((s, None))
            },
            Some(from) => if valid_pos(p) && s.game.is_legal(from, p) {
                Ok(
                    (
                        SessionView { highlight: None, state: ChessState::AwaitAck(from, p), ..s },
                        Some(Packet::Move(from, p)),
                    ),
                )
            } else {
                Ok((SessionView { highlight: None, ..s }, None))
            },
        },
        (ChessState::AwaitAck(from, to), Event::Received(Packet::AckMove)) => Ok(
            (
                SessionView { game: s.game.apply(from, to), state: ChessState::OtherMove, ..s },
                None,
            ),
        ),
        (ChessState::AwaitAck(_, _), Event::Received(Packet::RejMove)) => Err(
            SessionError::MoveRejected,
        ),
        (ChessState::OtherMove, Event::Received(Packet::Move(from, to))) => if valid_pos(from)
            && valid_pos(to) && s.game.is_legal(from, to) {
            Ok(
                (
                    SessionView { game: s.game.apply(from, to), state: ChessState::MyMove, ..s },
                    Some(Packet::AckMove),
                ),
            )
        } else {
            Ok((s, Some(Packet::RejMove)))
        },
        _ => Ok((s, None)),
    }
}

/// A running session: the local board, the phase, and the color this side
/// plays.
pub struct Session {
    pub board: Board,
    pub state: ChessState,
    pub color: Color,
}

impl View for Session {
    type V = SessionView;

    open spec fn view(&self) -> SessionView {
        SessionView {
            game: self.board.game_state@,
            highlight: self.board.highlight,
            state: self.state,
            color: self.color,
        }
    }
}

impl Session {
    /// The session of the listening peer: it plays White and moves first.
    pub fn listener() -> (r: Session)
        ensures
            r@.wf(),
            is_initial(r@.game),
            r@.highlight is None,
            r@.color == Color::White,
            r@.state == ChessState::MyMove,
    {
        let mut board = Board::new();
        board.setup_new_game();
        Session { board, state: ChessState::MyMove, color: Color::White }
    }

    /// The session of the connecting peer: it plays Black and waits for
    /// White's first move.
    pub fn connector() -> (r: Session)
        ensures
            r@.wf(),
            is_initial(r@.game),
            r@.highlight is None,
            r@.color == Color::Black,
            r@.state == ChessState::OtherMove,
    {
        let mut board = Board::new();
        board.setup_new_game();
        Session { board, state: ChessState::OtherMove, color: Color::Black }
    }

    /// Whether the session waits for a packet from the peer rather than for
    /// the local player.
    pub fn awaits_packet(&self) -> (r: bool)
        ensures
            r == !(self.state is MyMove),
    {
        match self.state {
            ChessState::MyMove => false,
            _ => true,
        }
    }

    /// Takes one step on `event` (see `step`) and returns the packet to send.
    /// On an error the session is left as it was.
    pub fn next(&mut self, event: Event) -> (r: Result<Option<Packet>, SessionError>)
        requires
            old(self)@.wf(),
        ensures
            step(old(self)@, event) == (match r {
                Ok(out) => Ok((final(self)@, out)),
                Err(e) => Err(e),
            }),
            r is Err ==> final(self)@ == old(self)@,
            final(self)@.wf(),
            r matches Ok(Some(out)) ==> fits_wire(out),
    {
        match (self.state, event) {
            (ChessState::MyMove, Event::Click(p)) => {
                let in_board = p.0 < 8 && p.1 < 8;
                match self.board.highlight {
                    None => {
                        if in_board && self.board.game_state.is_legal_start(p) {
                            self.board.highlight = Some(p);
                        }
                        Ok(None)
                    },
                    Some(from) => {
                        self.board.highlight = None;
                        if in_board && self.board.game_state.is_legal(from, p) {
                            self.state = ChessState::AwaitAck(from, p);
                            Ok(Some(Packet::Move(from, p)))
                        } else {
                            Ok(None)
                        }
                    },
                }
            },
            (ChessState::AwaitAck(from, to), Event::Received(Packet::AckMove)) => {
                self.board.game_state.do_move(from, to);
                self.state = ChessState::OtherMove;
                Ok(None)
            },
            (ChessState::AwaitAck(_, _), Event::Received(Packet::RejMove)) => Err(
                SessionError::MoveRejected,
            ),
            (ChessState::OtherMove, Event::Received(Packet::Move(from, to))) => {
                if from.0 < 8 && from.1 < 8 && to.0 < 8 && to.1 < 8
                    && self.board.game_state.is_legal(from, to) {
                    self.board.game_state.do_move(from, to);
                    self.state = ChessState::MyMove;
                    Ok(Some(Packet::AckMove))
                } else {
                    Ok(Some(Packet::RejMove))
                }
            },
            _ => Ok(None),
        }
    }
}

/// The file or rank that pixel `x` falls in on a board `extent` pixels wide.
pub open spec fn tile_of(x: int, extent: int) -> int {
    (x * 8) / extent
}

/// The square under the pixel (x, y) of a board `width` by `height` pixels
/// whose top left corner is at (0, 0); `None` off the board.
pub fn click_to_board(x: usize, y: usize, width: usize, height: usize) -> (r: Option<BoardPosition>)
    requires
        width > 0,
        height > 0,
    ensures
        r == (if x < width && y < height {
            Some(BoardPosition(tile_of(x as int, width as int) as usize, tile_of(y as int, height as int) as usize))
        } else {
            None::<BoardPosition>
        }),
        r matches Some(p) ==> valid_pos(p),
{
    if x >= width || y >= height {
        return None;
    }
    let f = (x as u128 * 8) / (width as u128);
    let r = (y as u128 * 8) / (height as u128);
    proof {
        let (xi, wi, yi, hi) = (x as int, width as int, y as int, height as int);
        assert((xi * 8) / wi < 8) by (nonlinear_arith)
            requires
                xi < wi,
                wi > 0,
                xi >= 0,
        ;
        assert((yi * 8) / hi < 8) by (nonlinear_arith)
            requires
                yi < hi,
                hi > 0,
                yi >= 0,
        ;
    }
    Some(BoardPosition(f as usize, r as usize))
}

/// The protocol is half duplex. A move is sent only on this side's turn while
/// no earlier move is unanswered, and sending it makes the session await the
/// answer. While
/// awaiting, nothing is sent, and only an acknowledgement (which plays the
/// move and hands over the turn) or a rejection (an error) ends the wait.
/// Each proposal received while the peer is to move gets exactly one answer,
/// and answers are sent only to proposals. Every step keeps the session
/// consistent.
pub proof fn lemma_protocol_cycle(s: SessionView, event: Event)
    requires
        s.wf(),
    ensures
        step(s, event) matches Ok((t, _)) ==> t.wf(),
        step(s, event) matches Ok((t, Some(Packet::Move(from, to)))) ==> s.state is MyMove
            && s.game.turn == s.color && t.state == ChessState::AwaitAck(from, to),
        s.state is AwaitAck ==> match step(s, event) {
            Ok((t, out)) => out is None && (t.state == s.state || (event == Event::Received(
                Packet::AckMove) && t.state is OtherMove && t.game == s.game.apply(
                s.state->AwaitAck_0,
                s.state->AwaitAck_1,
            ))),
            Err(e) => event == Event::Received(Packet::RejMove),
        },
        s.state is OtherMove && event is Received && event->Received_0 is Move ==> (step(
            s,
            event,
        ) matches Ok((_, Some(out))) && (out is AckMove || out is RejMove)),
        step(s, event) matches Ok((_, Some(out))) && !(out is Move) ==> s.state is OtherMove
            && event is Received && event->Received_0 is Move,
{
}

} // verus!
