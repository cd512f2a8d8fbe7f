use netchess::board::{BoardPosition, BoardSquare, Color, Piece};
use netchess::session::{click_to_board, ChessState, Event, Session, SessionError};
use netchess::wire::{BadPacketError, Packet};

fn bp(f: usize, r: usize) -> BoardPosition {
    BoardPosition(f, r)
}

#[test]
fn packets_encode_to_tag_and_payload() {
    assert_eq!(Packet::Move(bp(4, 6), bp(4, 4)).serialize(), vec![0, 4, 6, 4, 4]);
    assert_eq!(Packet::AckMove.serialize(), vec![1]);
    assert_eq!(Packet::RejMove.serialize(), vec![2]);
}

#[test]
fn packets_round_trip() {
    let packets = [Packet::Move(bp(0, 7), bp(7, 0)), Packet::AckMove, Packet::RejMove];
    for p in packets {
        let mut bytes = p.serialize();
        let n = bytes.len();
        assert_eq!(Packet::deserialize(&bytes), Ok((p, n)));
        bytes.extend_from_slice(&[9, 9]);
        assert_eq!(Packet::deserialize(&bytes), Ok((p, n)));
    }
}

#[test]
fn bad_packets_are_reported() {
    assert_eq!(Packet::deserialize(&[3]), Err(BadPacketError::UnknownTag(3)));
    assert_eq!(Packet::deserialize(&[255, 0]), Err(BadPacketError::UnknownTag(255)));
    assert_eq!(Packet::deserialize(&[]), Err(BadPacketError::Truncated));
    assert_eq!(Packet::deserialize(&[0, 1, 2]), Err(BadPacketError::Truncated));
    assert_eq!(Packet::payload_len(0), Some(4));
    assert_eq!(Packet::payload_len(1), Some(0));
    assert_eq!(Packet::payload_len(2), Some(0));
    assert_eq!(Packet::payload_len(7), None);
}

#[test]
fn listener_plays_white_and_moves_first() {
    let server = Session::listener();
    let client = Session::connector();
    assert_eq!(server.color, Color::White);
    assert_eq!(server.state, ChessState::MyMove);
    assert!(!server.awaits_packet());
    assert_eq!(client.color, Color::Black);
    assert_eq!(client.state, ChessState::OtherMove);
    assert!(client.awaits_packet());
    assert_eq!(server.board.game_state.turn, Color::White);
}

#[test]
fn one_move_one_answer() {
    let mut server = Session::listener();
    let mut client = Session::connector();
    // a click on an empty square or an enemy piece selects nothing
    assert_eq!(server.next(Event::Click(bp(4, 4))), Ok(None));
    assert_eq!(server.board.highlight, None);
    assert_eq!(server.next(Event::Click(bp(4, 1))), Ok(None));
    assert_eq!(server.board.highlight, None);
    // select e2, then an illegal target: the selection is dropped
    assert_eq!(server.next(Event::Click(bp(4, 6))), Ok(None));
    assert_eq!(server.board.highlight, Some(bp(4, 6)));
    assert_eq!(server.next(Event::Click(bp(4, 3))), Ok(None));
    assert_eq!(server.board.highlight, None);
    assert_eq!(server.state, ChessState::MyMove);
    // select e2 and e4: the move goes out and the server waits
    assert_eq!(server.next(Event::Click(bp(4, 6))), Ok(None));
    let sent = server.next(Event::Click(bp(4, 4))).unwrap().unwrap();
    assert_eq!(sent, Packet::Move(bp(4, 6), bp(4, 4)));
    assert_eq!(server.state, ChessState::AwaitAck(bp(4, 6), bp(4, 4)));
    // nothing more is sent while waiting, whatever arrives
    assert_eq!(server.next(Event::Click(bp(3, 6))), Ok(None));
    assert_eq!(server.next(Event::Received(Packet::Move(bp(1, 1), bp(1, 2)))), Ok(None));
    assert_eq!(server.state, ChessState::AwaitAck(bp(4, 6), bp(4, 4)));
    // the client checks and acknowledges
    let answer = client.next(Event::Received(sent)).unwrap().unwrap();
    assert_eq!(answer, Packet::AckMove);
    assert_eq!(client.state, ChessState::MyMove);
    assert_eq!(client.board.game_state.square(bp(4, 4)), BoardSquare::Occupied(Piece::Pawn(true), Color::White));
    // the acknowledgement plays the move on the server too
    assert_eq!(server.next(Event::Received(answer)), Ok(None));
    assert_eq!(server.state, ChessState::OtherMove);
    assert_eq!(server.board.game_state.square(bp(4, 4)), client.board.game_state.square(bp(4, 4)));
    assert_eq!(server.board.game_state.turn, Color::Black);
    assert_eq!(client.board.game_state.turn, Color::Black);
}

#[test]
fn illegal_proposals_are_rejected_and_waiting_goes_on() {
    let mut client = Session::connector();
    // black may not move first, and a move off the board is refused
    assert_eq!(client.next(Event::Received(Packet::Move(bp(4, 1), bp(4, 3)))), Ok(Some(Packet::RejMove)));
    assert_eq!(client.next(Event::Received(Packet::Move(bp(4, 6), bp(40, 3)))), Ok(Some(Packet::RejMove)));
    assert_eq!(client.next(Event::Received(Packet::Move(bp(4, 6), bp(4, 3)))), Ok(Some(Packet::RejMove)));
    assert_eq!(client.state, ChessState::OtherMove);
    // stray answers are ignored
    assert_eq!(client.next(Event::Received(Packet::AckMove)), Ok(None));
    assert_eq!(client.state, ChessState::OtherMove);
    assert_eq!(client.board.game_state.square(bp(4, 6)), BoardSquare::Occupied(Piece::Pawn(false), Color::White));
}

#[test]
fn rejection_of_own_move_is_an_error() {
    let mut server = Session::listener();
    server.next(Event::Click(bp(6, 7))).unwrap();
    assert_eq!(server.next(Event::Click(bp(5, 5))), Ok(Some(Packet::Move(bp(6, 7), bp(5, 5)))));
    assert_eq!(server.next(Event::Received(Packet::RejMove)), Err(SessionError::MoveRejected));
    assert_eq!(server.state, ChessState::AwaitAck(bp(6, 7), bp(5, 5)));
}

#[test]
fn clicks_map_to_squares() {
    assert_eq!(click_to_board(0, 0, 400, 400), Some(bp(0, 0)));
    assert_eq!(click_to_board(49, 50, 400, 400), Some(bp(0, 1)));
    assert_eq!(click_to_board(399, 399, 400, 400), Some(bp(7, 7)));
    assert_eq!(click_to_board(250, 120, 400, 200), Some(bp(5, 4)));
    assert_eq!(click_to_board(400, 10, 400, 400), None);
    assert_eq!(click_to_board(10, 400, 400, 400), None);
}
