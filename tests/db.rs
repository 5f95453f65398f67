use scoreboard::db::{classify_lookup, scoreboard_key, user_key_of, CacheReply};
use scoreboard::{Error, Fault, Id, Score, ScoreBoard, User};

const SAMPLE: u128 = 0x67e5_5044_10b1_426f_9247_bb68_0e5f_e0c8;

#[test]
fn get_set_user() {
    let id = Id::new_v4();
    let stored = User::from_id(id);
    let user = classify_lookup(CacheReply::Value(stored)).unwrap().unwrap();
    assert_eq!(user.id(), id);
}

#[test]
fn get_set_scoreboard() {
    let scoreboard = ScoreBoard::new();
    let id = scoreboard.id();
    let scoreboard = classify_lookup(CacheReply::Value(scoreboard)).unwrap().unwrap();
    assert_eq!(scoreboard.id(), id);
}

#[test]
fn update_user_score() {
    let mut user = User::new();
    assert_eq!(user.total_score(), 0);
    user.add_score(200);
    user.add_score(2);
    assert_eq!(user.total_score(), 202);
}

#[test]
fn missing_user_returns_none() {
    let user = classify_lookup::<User>(CacheReply::TypeMismatch).unwrap();
    assert!(user.is_none());
}

#[test]
fn total_score_sums_in_order_added() {
    let mut user = User::new();
    user.add_score(20);
    user.add_score(200);
    assert_eq!(user.total_score(), 220);
}

#[test]
fn total_score_ignores_order() {
    let mut a = User::from_id(Id::from_u128(1));
    let mut b = User::from_id(Id::from_u128(1));
    for v in [5u64, 17, 0, 1000] {
        a.add_score(v);
    }
    for v in [1000u64, 0, 17, 5] {
        b.add_score(v);
    }
    assert_eq!(a.total_score(), 1022);
    assert_eq!(b.total_score(), 1022);
}

#[test]
fn total_score_reaches_u64_max() {
    let mut user = User::new();
    user.add_score(u64::MAX - 1);
    user.add_score(1);
    assert_eq!(user.total_score(), u64::MAX);
}

#[test]
fn scores_keep_order_added() {
    let mut user = User::new();
    user.add_score(3);
    user.add_score(1);
    user.add_score(2);
    let values: Vec<u64> = user.scores().iter().map(|s| s.value()).collect();
    assert_eq!(values, vec![3, 1, 2]);
    assert_eq!(Score::new(9).value(), 9);
}

#[test]
fn new_user_has_nil_id_and_no_scores() {
    let user = User::new();
    assert_eq!(user.id(), Id::nil());
    assert_eq!(user.id().as_u128(), 0);
    assert!(user.scores().is_empty());
}

#[test]
fn new_board_is_empty_with_random_id() {
    let board = ScoreBoard::new();
    let bits = board.id().as_u128();
    assert_eq!((bits >> 76) & 0xF, 4);
    assert_eq!((bits >> 62) & 0x3, 2);
    assert!(board.users().is_empty());
}

#[test]
fn board_from_parts_keeps_users() {
    let mut u = User::from_id(Id::from_u128(7));
    u.add_score(11);
    let board = ScoreBoard::from_parts(Id::from_u128(SAMPLE), vec![u]);
    assert_eq!(board.id().as_u128(), SAMPLE);
    assert_eq!(board.users().len(), 1);
    assert_eq!(board.users()[0].total_score(), 11);
}

#[test]
fn id_text_is_hyphenated_lower_case() {
    let id = Id::from_u128(SAMPLE);
    assert_eq!(id.to_text(), "67e55044-10b1-426f-9247-bb680e5fe0c8");
    assert_eq!(Id::nil().to_text(), "00000000-0000-0000-0000-000000000000");
}

#[test]
fn cache_keys_carry_prefix_and_id() {
    let id = Id::from_u128(SAMPLE);
    assert_eq!(scoreboard_key(&id), "scoreboard:67e55044-10b1-426f-9247-bb680e5fe0c8");
    assert_eq!(user_key_of(&id), "user:67e55044-10b1-426f-9247-bb680e5fe0c8");
}

#[test]
fn board_read_back_equals_written() {
    let board = ScoreBoard::new();
    let id = board.id();
    let key = scoreboard_key(&id);
    let read = classify_lookup(CacheReply::Value(board)).unwrap().unwrap();
    assert_eq!(scoreboard_key(&read.id()), key);
    assert!(read.users().is_empty());
}

#[test]
fn missing_board_is_absent_not_error() {
    let read = classify_lookup::<ScoreBoard>(CacheReply::TypeMismatch);
    assert!(matches!(read, Ok(None)));
}

#[test]
fn cache_fault_is_transport_error() {
    let read = classify_lookup::<ScoreBoard>(CacheReply::Fault);
    assert!(matches!(read, Err(Error::Transport(Fault::Cache))));
}
