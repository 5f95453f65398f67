use scoreboard::db::{scoreboard_key, CacheReply};
use scoreboard::db::classify_lookup;
use scoreboard::ws::{board_fetched, board_stored, Dispatch};
use scoreboard::{
    handle_message, ClientError, ClientErrorKind, ClientMessage, ClientResponse, Error, Fault, Id,
    ScoreBoard,
};

fn created_id(message: ClientMessage) -> Id {
    match handle_message(message) {
        Dispatch::StoreBoard { key, board } => {
            assert_eq!(key, scoreboard_key(&board.id()));
            match board_stored(&board, Ok(())) {
                Ok(ClientResponse::CreateScoreBoard { id }) => {
                    assert_eq!(id, board.id());
                    id
                }
                other => panic!("unexpected answer {:?}", other),
            }
        }
        other => panic!("unexpected step {:?}", other),
    }
}

#[test]
fn create_scoreboard() {
    let message = ClientMessage::CreateScoreBoard;
    let step = handle_message(message);
    let response = match step {
        Dispatch::StoreBoard { board, .. } => board_stored(&board, Ok(())).unwrap(),
        other => panic!("unexpected step {:?}", other),
    };
    assert!(matches!(response, ClientResponse::CreateScoreBoard { id: _ }));
}

#[test]
fn create_scoreboard_gives_fresh_ids() {
    let a = created_id(ClientMessage::CreateScoreBoard);
    let b = created_id(ClientMessage::CreateScoreBoard);
    assert_ne!(a, b);
    assert_eq!((a.as_u128() >> 76) & 0xF, 4);
}

#[test]
fn create_scoreboard_write_failure_propagates() {
    let board = ScoreBoard::new();
    let r = board_stored(&board, Err(Error::Transport(Fault::Cache)));
    assert!(matches!(r, Err(Error::Transport(Fault::Cache))));
}

#[test]
fn get_scoreboard_reads_its_key() {
    let id = Id::from_u128(42);
    match handle_message(ClientMessage::GetScoreBoard { id }) {
        Dispatch::FetchBoard { key } => {
            assert_eq!(key, "scoreboard:00000000-0000-0000-0000-00000000002a")
        }
        other => panic!("unexpected step {:?}", other),
    }
}

#[test]
fn get_scoreboard_present_returns_board() {
    let board = ScoreBoard::from_parts(Id::from_u128(9), vec![]);
    let r = board_fetched(classify_lookup(CacheReply::Value(board))).unwrap();
    match r {
        ClientResponse::GetScoreBoard { scoreboard } => assert_eq!(scoreboard.id().as_u128(), 9),
        other => panic!("unexpected answer {:?}", other),
    }
}

#[test]
fn get_scoreboard_missing_is_not_found() {
    let r = board_fetched(classify_lookup(CacheReply::TypeMismatch));
    match r {
        Err(Error::ClientError(e)) => {
            assert_eq!(e.kind(), ClientErrorKind::NotFound);
            assert_eq!(e.message(), "Scoreboard not found");
        }
        other => panic!("unexpected answer {:?}", other),
    }
}

#[test]
fn get_scoreboard_fault_is_transport() {
    let r = board_fetched(classify_lookup(CacheReply::Fault));
    assert!(matches!(r, Err(Error::Transport(Fault::Cache))));
}

#[test]
fn create_then_get_returns_created_board() {
    let (key, board) = match handle_message(ClientMessage::CreateScoreBoard) {
        Dispatch::StoreBoard { key, board } => (key, board),
        other => panic!("unexpected step {:?}", other),
    };
    let id = match board_stored(&board, Ok(())) {
        Ok(ClientResponse::CreateScoreBoard { id }) => id,
        other => panic!("unexpected answer {:?}", other),
    };
    match handle_message(ClientMessage::GetScoreBoard { id }) {
        Dispatch::FetchBoard { key: read_key } => assert_eq!(read_key, key),
        other => panic!("unexpected step {:?}", other),
    }
    match board_fetched(classify_lookup(CacheReply::Value(board))) {
        Ok(ClientResponse::GetScoreBoard { scoreboard }) => {
            assert_eq!(scoreboard.id(), id);
            assert!(scoreboard.users().is_empty());
        }
        other => panic!("unexpected answer {:?}", other),
    }
}

fn assert_unsupported(message: ClientMessage) {
    match handle_message(message) {
        Dispatch::Done(Err(Error::ClientError(e))) => {
            assert_eq!(e.kind(), ClientErrorKind::UnsupportedMethod);
            assert_eq!(e.message(), "The method sent is not supported");
        }
        other => panic!("unexpected step {:?}", other),
    }
}

#[test]
fn add_member_is_unsupported() {
    assert_unsupported(ClientMessage::AddMember { name: String::from("x") });
}

#[test]
fn delete_member_is_unsupported() {
    assert_unsupported(ClientMessage::DeleteMember { name: String::from("x") });
}

#[test]
fn update_score_is_unsupported() {
    assert_unsupported(ClientMessage::UpdateScore { name: String::from("x"), score: 5 });
}

#[test]
fn join_room_echoes_room_id() {
    match handle_message(ClientMessage::JoinRoom { id: String::from("room-7") }) {
        Dispatch::Done(Ok(ClientResponse::JoinRoom { id })) => assert_eq!(id, "room-7"),
        other => panic!("unexpected step {:?}", other),
    }
}

#[test]
fn client_error_constructors() {
    let e = ClientError::new("nope", ClientErrorKind::UnsupportedMethod);
    assert_eq!(e.kind(), ClientErrorKind::UnsupportedMethod);
    assert_eq!(e.message(), "nope");
    let n = ClientError::not_found("gone");
    assert_eq!(n.kind(), ClientErrorKind::NotFound);
    assert_eq!(n.message(), "gone");
}

#[test]
fn duplicate_equals_original() {
    let m = ClientMessage::UpdateScore { name: String::from("ann"), score: 12 };
    match m.duplicate() {
        ClientMessage::UpdateScore { name, score } => {
            assert_eq!(name, "ann");
            assert_eq!(score, 12);
        }
        other => panic!("unexpected copy {:?}", other),
    }
}
