use crate::error::{Error, Fault, Result};
use vstd::prelude::*;
use vstd::string::StringExecFns;

verus! {

/// Mask of the four version bits of a 128-bit identifier.
pub const VERSION_MASK: u128 = 0xF000_0000_0000_0000_0000;

/// Version bits of a randomly generated identifier (version 4).
pub const VERSION_RANDOM: u128 = 0x4000_0000_0000_0000_0000;

/// Mask of the two variant bits of a 128-bit identifier.
pub const VARIANT_MASK: u128 = 0xC000_0000_0000_0000;

/// Variant bits of an identifier laid out as RFC 9562 describes.
pub const VARIANT_RFC: u128 = 0x8000_0000_0000_0000;

/// Whether `v` carries the version and variant bits of a random identifier.
pub open spec fn is_random_id(v: u128) -> bool {
    &&& v & VERSION_MASK == VERSION_RANDOM
    &&& v & VARIANT_MASK == VARIANT_RFC
}

/// The lower-case hex digit for `d`, which is below 16.
pub open spec fn hex_digit(d: u128) -> char {
    "0123456789abcdef"@[d as int]
}

/// The `k`-th of the 32 hex digits of `v`, the most significant first.
pub open spec fn nibble(v: u128, k: int) -> u128 {
    (v >> ((31 - k) * 4) as u128) & 0xF
}

/// How many hyphens the hyphenated text has before position `i`.
pub open spec fn hyphens_before(i: int) -> int {
    if i < 9 {
        0
    } else if i < 14 {
        1
    } else if i < 19 {
        2
    } else if i < 24 {
        3
    } else {
        4
    }
}

/// The lower-case hyphenated text of the identifier `v`: its 32 hex digits,
/// most significant first, in groups of 8, 4, 4, 4 and 12 joined by hyphens.
pub open spec fn id_text_of(v: u128) -> Seq<char> {
    Seq::new(
        36,
        |i: int|
            if i == 8 || i == 13 || i == 18 || i == 23 {
                '-'
            } else {
                hex_digit(nibble(v, i - hyphens_before(i)))
            },
    )
}

/// Different digits have different characters.
proof fn lemma_hex_digit_injective(d: u128, e: u128)
    requires
        d < 16,
        e < 16,
        hex_digit(d) == hex_digit(e),
    ensures
        d == e,
{
    reveal_strlit("0123456789abcdef");
}

/// Where the `k`-th hex digit stands in the hyphenated text.
spec fn digit_position(k: int) -> int {
    if k < 8 {
        k
    } else if k < 12 {
        k + 1
    } else if k < 16 {
        k + 2
    } else if k < 20 {
        k + 3
    } else {
        k + 4
    }
}

/// Different identifiers have different texts.
pub proof fn lemma_id_text_injective(a: u128, b: u128)
    requires
        id_text_of(a) == id_text_of(b),
    ensures
        a == b,
{
    assert forall|k: int| 0 <= k < 32 implies nibble(a, k) == nibble(b, k) by {
        let i = digit_position(k);
        assert(0 <= i < 36 && i - hyphens_before(i) == k);
        assert(!(i == 8 || i == 13 || i == 18 || i == 23));
        assert(id_text_of(a)[i] == hex_digit(nibble(a, k)));
        assert(id_text_of(b)[i] == hex_digit(nibble(b, k)));
        let shift = ((31 - k) * 4) as u128;
        assert((a >> shift) & 0xF < 16) by (bit_vector);
        assert((b >> shift) & 0xF < 16) by (bit_vector);
        lemma_hex_digit_injective(nibble(a, k), nibble(b, k));
    }
    assert(nibble(a, 0) == nibble(b, 0));
    assert(nibble(a, 1) == nibble(b, 1));
    assert(nibble(a, 2) == nibble(b, 2));
    assert(nibble(a, 3) == nibble(b, 3));
    assert(nibble(a, 4) == nibble(b, 4));
    assert(nibble(a, 5) == nibble(b, 5));
    assert(nibble(a, 6) == nibble(b, 6));
    assert(nibble(a, 7) == nibble(b, 7));
    assert(nibble(a, 8) == nibble(b, 8));
    assert(nibble(a, 9) == nibble(b, 9));
    assert(nibble(a, 10) == nibble(b, 10));
    assert(nibble(a, 11) == nibble(b, 11));
    assert(nibble(a, 12) == nibble(b, 12));
    assert(nibble(a, 13) == nibble(b, 13));
    assert(nibble(a, 14) == nibble(b, 14));
    assert(nibble(a, 15) == nibble(b, 15));
    assert(nibble(a, 16) == nibble(b, 16));
    assert(nibble(a, 17) == nibble(b, 17));
    assert(nibble(a, 18) == nibble(b, 18));
    assert(nibble(a, 19) == nibble(b, 19));
    assert(nibble(a, 20) == nibble(b, 20));
    assert(nibble(a, 21) == nibble(b, 21));
    assert(nibble(a, 22) == nibble(b, 22));
    assert(nibble(a, 23) == nibble(b, 23));
    assert(nibble(a, 24) == nibble(b, 24));
    assert(nibble(a, 25) == nibble(b, 25));
    assert(nibble(a, 26) == nibble(b, 26));
    assert(nibble(a, 27) == nibble(b, 27));
    assert(nibble(a, 28) == nibble(b, 28));
    assert(nibble(a, 29) == nibble(b, 29));
    assert(nibble(a, 30) == nibble(b, 30));
    assert(nibble(a, 31) == nibble(b, 31));
    assert(a == b) by (bit_vector)
        requires
            (a >> 124u128) & 0xF == (b >> 124u128) & 0xF,
            (a >> 120u128) & 0xF == (b >> 120u128) & 0xF,
            (a >> 116u128) & 0xF == (b >> 116u128) & 0xF,
            (a >> 112u128) & 0xF == (b >> 112u128) & 0xF,
            (a >> 108u128) & 0xF == (b >> 108u128) & 0xF,
            (a >> 104u128) & 0xF == (b >> 104u128) & 0xF,
            (a >> 100u128) & 0xF == (b >> 100u128) & 0xF,
            (a >> 96u128) & 0xF == (b >> 96u128) & 0xF,
            (a >> 92u128) & 0xF == (b >> 92u128) & 0xF,
            (a >> 88u128) & 0xF == (b >> 88u128) & 0xF,
            (a >> 84u128) & 0xF == (b >> 84u128) & 0xF,
            (a >> 80u128) & 0xF == (b >> 80u128) & 0xF,
            (a >> 76u128) & 0xF == (b >> 76u128) & 0xF,
            (a >> 72u128) & 0xF == (b >> 72u128) & 0xF,
            (a >> 68u128) & 0xF == (b >> 68u128) & 0xF,
            (a >> 64u128) & 0xF == (b >> 64u128) & 0xF,
            (a >> 60u128) & 0xF == (b >> 60u128) & 0xF,
            (a >> 56u128) & 0xF == (b >> 56u128) & 0xF,
            (a >> 52u128) & 0xF == (b >> 52u128) & 0xF,
            (a >> 48u128) & 0xF == (b >> 48u128) & 0xF,
            (a >> 44u128) & 0xF == (b >> 44u128) & 0xF,
            (a >> 40u128) & 0xF == (b >> 40u128) & 0xF,
            (a >> 36u128) & 0xF == (b >> 36u128) & 0xF,
            (a >> 32u128) & 0xF == (b >> 32u128) & 0xF,
            (a >> 28u128) & 0xF == (b >> 28u128) & 0xF,
            (a >> 24u128) & 0xF == (b >> 24u128) & 0xF,
            (a >> 20u128) & 0xF == (b >> 20u128) & 0xF,
            (a >> 16u128) & 0xF == (b >> 16u128) & 0xF,
            (a >> 12u128) & 0xF == (b >> 12u128) & 0xF,
            (a >> 8u128) & 0xF == (b >> 8u128) & 0xF,
            (a >> 4u128) & 0xF == (b >> 4u128) & 0xF,
            (a >> 0u128) & 0xF == (b >> 0u128) & 0xF,
    ;
}

/// Relies on uuid::Uuid::new_v4: random bits, with the version nibble set to 4
/// and the variant bits set to 10.
#[verifier::external_body]
fn random_v4() -> (r: u128)
    ensures
        is_random_id(r),
{
    uuid::Uuid::new_v4().as_u128()
}

/// Relies on the Display impl of uuid::Uuid: the hyphenated lower-case form
/// of the value's 16 big-endian bytes.
#[verifier::external_body]
fn hyphenated(v: u128) -> (r: String)
    ensures
        r@ == id_text_of(v),
{
    uuid::Uuid::from_u128(v).to_string()
}

/// A 128-bit identifier of a user or a scoreboard.
#[derive(Debug, Clone, Copy, PartialEq, Eq, Structural, Hash)]
pub struct Id {
    bits: u128,
}

impl View for Id {
    type V = u128;

    closed spec fn view(&self) -> u128 {
        self.bits
    }
}

impl Id {
    /// The identifier whose bits are `v`.
    pub fn from_u128(v: u128) -> (r: Id)
        ensures
            r@ == v,
    {
        Id { bits: v }
    }

    /// The identifier with every bit clear.
    pub fn nil() -> (r: Id)
        ensures
            r@ == 0,
    {
        Id { bits: 0 }
    }

    /// A fresh random identifier (version 4).
    pub fn new_v4() -> (r: Id)
        ensures
            is_random_id(r@),
    {
        Id { bits: random_v4() }
    }

    pub fn as_u128(&self) -> (r: u128)
        ensures
            r == self@,
    {
        self.bits
    }

    /// The hyphenated lower-case text of the identifier.
    pub fn to_text(&self) -> (r: String)
        ensures
            r@ == id_text_of(self@),
            r@.len() == 36,
    {
        hyphenated(self.bits)
    }
}

/// One score that a user earned. Immutable once recorded.
#[derive(Debug, Clone, Copy, PartialEq, Eq, Structural)]
pub struct Score {
    value: u64,
}

impl View for Score {
    type V = u64;

    closed spec fn view(&self) -> u64 {
        self.value
    }
}

impl Score {
    pub fn new(value: u64) -> (r: Score)
        ensures
            r@ == value,
    {
        Score { value }
    }

    pub fn value(&self) -> (r: u64)
        ensures
            r == self@,
    {
        self.value
    }
}

/// The sum of a sequence of score values, folded from the front.
pub open spec fn sum(s: Seq<u64>) -> nat
    decreases s.len(),
{
    if s.len() == 0 {
        0
    } else {
        sum(s.drop_last()) + s.last() as nat
    }
}

/// The sum of a concatenation is the sum of its parts.
pub proof fn lemma_sum_concat(s: Seq<u64>, t: Seq<u64>)
    ensures
        sum(s + t) == sum(s) + sum(t),
    decreases t.len(),
{
    if t.len() == 0 {
        assert(s + t =~= s);
    } else {
        assert((s + t).drop_last() =~= s + t.drop_last());
        lemma_sum_concat(s, t.drop_last());
    }
}

/// No prefix sums to more than the whole sequence.
pub proof fn lemma_sum_prefix(s: Seq<u64>, i: int)
    requires
        0 <= i <= s.len(),
    ensures
        sum(s.take(i)) <= sum(s),
{
    lemma_sum_concat(s.take(i), s.skip(i));
    assert(s.take(i) + s.skip(i) =~= s);
}

/// The mathematical value of a [`User`]: its id and its score values in the
/// order in which they were recorded.
pub struct UserView {
    pub id: u128,
    pub scores: Seq<u64>,
}

/// A player of a scoreboard and the scores it has earned.
#[derive(Debug, Clone)]
pub struct User {
    id: Id,
    scores: Vec<Score>,
}

impl View for User {
    type V = UserView;

    closed spec fn view(&self) -> UserView {
        UserView { id: self.id@, scores: self.scores@.map_values(|s: Score| s@) }
    }
}

/// A user's total score: the sum of all its score values.
pub open spec fn total(u: UserView) -> nat {
    sum(u.scores)
}

impl User {
    /// A user with the nil id and no scores.
    pub fn new() -> (r: User)
        ensures
            r@.id == 0,
            r@.scores == Seq::<u64>::empty(),
    {
        let r = User { id: Id::nil(), scores: Vec::new() };
        assert(r@.scores =~= Seq::<u64>::empty());
        r
    }

    /// A user with the given id and no scores.
    pub fn from_id(id: Id) -> (r: User)
        ensures
            r@.id == id@,
            r@.scores == Seq::<u64>::empty(),
    {
        let r = User { id, scores: Vec::new() };
        assert(r@.scores =~= Seq::<u64>::empty());
        r
    }

    pub fn id(&self) -> (r: Id)
        ensures
            r@ == self@.id,
    {
        self.id
    }

    /// Records one more score; the total never goes down.
    pub fn add_score(&mut self, score: u64)
        ensures
            final(self)@.id == old(self)@.id,
            final(self)@.scores == old(self)@.scores.push(score),
            total(final(self)@) == total(old(self)@) + score,
    {
        self.scores.push(Score { value: score });
        assert(self@.scores =~= old(self)@.scores.push(score));
        assert(self@.scores.drop_last() =~= old(self)@.scores);
    }

    /// The recorded scores, oldest first.
    pub fn scores(&self) -> (r: Vec<Score>)
        ensures
            r@.map_values(|s: Score| s@) == self@.scores,
    {
        let mut r: Vec<Score> = Vec::new();
        let mut i: usize = 0;
        while i < self.scores.len()
            invariant
                i <= self.scores.len(),
                r@ == self.scores@.take(i as int),
            decreases self.scores.len() - i,
        {
            r.push(self.scores[i]);
            i = i + 1;
            assert(r@ =~= self.scores@.take(i as int));
        }
        assert(self.scores@.take(i as int) =~= self.scores@);
        r
    }

    /// The user's total score.
    pub fn total_score(&self) -> (r: u64)
        requires
            total(self@) <= u64::MAX,
        ensures
            r == total(self@),
    {
        let ghost values = self@.scores;
        let mut acc: u64 = 0;
        let mut i: usize = 0;
        while i < self.scores.len()
            invariant
                i <= self.scores.len(),
                values == self.scores@.map_values(|s: Score| s@),
                sum(values) <= u64::MAX,
                acc == sum(values.take(i as int)),
            decreases self.scores.len() - i,
        {
            proof {
                lemma_sum_prefix(values, i + 1);
                assert(values.take(i + 1).drop_last() =~= values.take(i as int));
            }
            acc = self.scores[i].value + acc;
            i = i + 1;
        }
        assert(values.take(i as int) =~= values);
        acc
    }
}

/// The total score after a run of `add_score` calls is the total before it
/// plus the sum of the values added, whatever the values and their order.
pub proof fn lemma_total_after_scores(before: UserView, added: Seq<u64>, after: UserView)
    requires
        after.scores == before.scores + added,
    ensures
        total(after) == total(before) + sum(added),
{
    lemma_sum_concat(before.scores, added);
}

/// Taking one value out of a sequence takes it out of the sum.
pub proof fn lemma_sum_remove(t: Seq<u64>, j: int)
    requires
        0 <= j < t.len(),
    ensures
        sum(t) == sum(t.remove(j)) + t[j],
{
    let front = t.take(j);
    let back = t.skip(j + 1);
    assert(t =~= front + seq![t[j]] + back);
    assert(t.remove(j) =~= front + back);
    lemma_sum_concat(front + seq![t[j]], back);
    lemma_sum_concat(front, seq![t[j]]);
    lemma_sum_concat(front, back);
    let single = seq![t[j]];
    assert(single.drop_last() =~= Seq::<u64>::empty());
    assert(sum(Seq::<u64>::empty()) == 0);
    assert(sum(single) == sum(single.drop_last()) + single.last() as nat);
}

/// Two sequences that hold the same values, in any order, have the same sum.
pub proof fn lemma_sum_permutation(s: Seq<u64>, t: Seq<u64>)
    requires
        s.to_multiset() == t.to_multiset(),
    ensures
        sum(s) == sum(t),
    decreases s.len(),
{
    broadcast use vstd::seq_lib::group_to_multiset_ensures;

    if s.len() == 0 {
        assert(t.to_multiset().len() == 0);
        assert(t =~= Seq::<u64>::empty());
    } else {
        let x = s.last();
        let rest = s.drop_last();
        assert(s =~= rest.push(x));
        assert(s.to_multiset() =~= rest.to_multiset().insert(x));
        assert(t.to_multiset().count(x) > 0);
        assert(t.contains(x));
        let j = choose|j: int| 0 <= j < t.len() && t[j] == x;
        assert(t.remove(j).to_multiset() =~= t.to_multiset().remove(x));
        assert(rest.to_multiset() =~= s.to_multiset().remove(x));
        lemma_sum_permutation(rest, t.remove(j));
        lemma_sum_remove(t, j);
    }
}

/// Two users that start alike and are given the same values through
/// `add_score`, each in its own order, end with the same total.
pub proof fn lemma_total_order_independent(
    before: UserView,
    first: Seq<u64>,
    second: Seq<u64>,
    after_first: UserView,
    after_second: UserView,
)
    requires
        first.to_multiset() == second.to_multiset(),
        after_first.scores == before.scores + first,
        after_second.scores == before.scores + second,
    ensures
        total(after_first) == total(after_second),
{
    lemma_sum_concat(before.scores, first);
    lemma_sum_concat(before.scores, second);
    lemma_sum_permutation(first, second);
}

/// The mathematical value of a [`ScoreBoard`].
pub struct BoardView {
    pub id: u128,
    pub users: Seq<UserView>,
}

/// A collection of users and their scores, identified by an id that is
/// generated once, at creation.
#[derive(Debug, Clone)]
pub struct ScoreBoard {
    id: Id,
    users: Vec<User>,
}

impl View for ScoreBoard {
    type V = BoardView;

    closed spec fn view(&self) -> BoardView {
        BoardView { id: self.id@, users: self.users@.map_values(|u: User| u@) }
    }
}

impl ScoreBoard {
    /// A board with a fresh random id and no users.
    pub fn new() -> (r: ScoreBoard)
        ensures
            is_random_id(r@.id),
            r@.users == Seq::<UserView>::empty(),
    {
        let r = ScoreBoard { id: Id::new_v4(), users: Vec::new() };
        assert(r@.users =~= Seq::<UserView>::empty());
        r
    }

    /// A board rebuilt from a known id and its users, as read back from a store.
    pub fn from_parts(id: Id, users: Vec<User>) -> (r: ScoreBoard)
        ensures
            r@.id == id@,
            r@.users == users@.map_values(|u: User| u@),
    {
        ScoreBoard { id, users }
    }

    pub fn id(&self) -> (r: Id)
        ensures
            r@ == self@.id,
    {
        self.id
    }

    pub fn users(&self) -> (r: &Vec<User>)
        ensures
            r@.map_values(|u: User| u@) == self@.users,
    {
        &self.users
    }
}

/// The cache key of the scoreboard with id `id`.
pub open spec fn board_key(id: u128) -> Seq<char> {
    "scoreboard:"@ + id_text_of(id)
}

/// The cache key of the user with id `id`.
pub open spec fn user_key(id: u128) -> Seq<char> {
    "user:"@ + id_text_of(id)
}

/// The key under which the board with this id is cached.
pub fn scoreboard_key(id: &Id) -> (r: String)
    ensures
        r@ == board_key(id@),
{
    proof {
        reveal_strlit("scoreboard:");
    }
    String::from_str("scoreboard:").concat(id.to_text().as_str())
}

/// The key under which the user with this id is cached.
pub fn user_key_of(id: &Id) -> (r: String)
    ensures
        r@ == user_key(id@),
{
    proof {
        reveal_strlit("user:");
    }
    String::from_str("user:").concat(id.to_text().as_str())
}

/// What the cache answered to a read of one key.
#[derive(Debug, Clone)]
pub enum CacheReply<T> {
    /// The key held a value of the expected shape.
    Value(T),
    /// The key held nothing, or a value of another shape.
    TypeMismatch,
    /// The cache could not be reached or failed otherwise.
    Fault,
}

/// The result of a cache read: absent on a type mismatch, a transport
/// failure on a fault.
pub open spec fn lookup<T>(reply: CacheReply<T>) -> Result<Option<T>> {
    match reply {
        CacheReply::Value(v) => Ok(Some(v)),
        CacheReply::TypeMismatch => Ok(None),
        CacheReply::Fault => Err(Error::Transport(Fault::Cache)),
    }
}

/// Turns a cache reply into the result of a read: a value that is missing or
/// of another shape is "absent", never an error.
pub fn classify_lookup<T>(reply: CacheReply<T>) -> (r: Result<Option<T>>)
    ensures
        r == lookup(reply),
{
    match reply {
        CacheReply::Value(v) => Ok(Some(v)),
        CacheReply::TypeMismatch => Ok(None),
        CacheReply::Fault => Err(Error::Transport(Fault::Cache)),
    }
}

/// A value held by the cache under one key.
pub enum Stored {
    Board(BoardView),
    Member(UserView),
}

/// The contents of the cache: one value per key.
pub type CacheState = Map<Seq<char>, Stored>;

/// The cache after a board is written: the previous value under its key,
/// if any, is replaced whole.
pub open spec fn set_board(m: CacheState, b: BoardView) -> CacheState {
    m.insert(board_key(b.id), Stored::Board(b))
}

/// The cache after a user is written, replacing the previous value whole.
pub open spec fn set_user(m: CacheState, u: UserView) -> CacheState {
    m.insert(user_key(u.id), Stored::Member(u))
}

/// What the cache answers to a read of `key` for a board.
pub open spec fn board_reply(m: CacheState, key: Seq<char>) -> CacheReply<BoardView> {
    if m.contains_key(key) && m[key] is Board {
        CacheReply::Value(m[key]->Board_0)
    } else {
        CacheReply::TypeMismatch
    }
}

/// What the cache answers to a read of `key` for a user.
pub open spec fn user_reply(m: CacheState, key: Seq<char>) -> CacheReply<UserView> {
    if m.contains_key(key) && m[key] is Member {
        CacheReply::Value(m[key]->Member_0)
    } else {
        CacheReply::TypeMismatch
    }
}

/// The mathematical value of a cache reply that carries a board.
pub open spec fn board_reply_view(reply: CacheReply<ScoreBoard>) -> CacheReply<BoardView> {
    match reply {
        CacheReply::Value(b) => CacheReply::Value(b@),
        CacheReply::TypeMismatch => CacheReply::TypeMismatch,
        CacheReply::Fault => CacheReply::Fault,
    }
}

/// A board that was written can be read back, equal to what was written.
pub proof fn lemma_board_round_trip(m: CacheState, b: BoardView)
    ensures
        lookup(board_reply(set_board(m, b), board_key(b.id))) == Ok::<Option<BoardView>, Error>(
            Some(b),
        ),
{
}

/// A user that was written can be read back, equal to what was written.
pub proof fn lemma_user_round_trip(m: CacheState, u: UserView)
    ensures
        lookup(user_reply(set_user(m, u), user_key(u.id))) == Ok::<Option<UserView>, Error>(
            Some(u),
        ),
{
}

/// Different boards have different keys, different users have different
/// keys, and no board shares a key with a user.
pub proof fn lemma_keys_distinct(a: u128, b: u128)
    ensures
        board_key(a) == board_key(b) ==> a == b,
        user_key(a) == user_key(b) ==> a == b,
        board_key(a) != user_key(b),
{
    reveal_strlit("scoreboard:");
    reveal_strlit("user:");
    if board_key(a) == board_key(b) {
        assert(board_key(a).skip(11) =~= id_text_of(a));
        assert(board_key(b).skip(11) =~= id_text_of(b));
        lemma_id_text_injective(a, b);
    }
    if user_key(a) == user_key(b) {
        assert(user_key(a).skip(5) =~= id_text_of(a));
        assert(user_key(b).skip(5) =~= id_text_of(b));
        lemma_id_text_injective(a, b);
    }
    assert(board_key(a)[0] != user_key(b)[0]);
}

/// Writing one board or one user changes what a read of any other board
/// or user returns in no way.
pub proof fn lemma_writes_isolated(m: CacheState, b: BoardView, u: UserView, id: u128)
    ensures
        id != b.id ==> board_reply(set_board(m, b), board_key(id)) == board_reply(m, board_key(id)),
        board_reply(set_user(m, u), board_key(id)) == board_reply(m, board_key(id)),
        id != u.id ==> user_reply(set_user(m, u), user_key(id)) == user_reply(m, user_key(id)),
        user_reply(set_board(m, b), user_key(id)) == user_reply(m, user_key(id)),
{
    lemma_keys_distinct(id, b.id);
    lemma_keys_distinct(id, u.id);
    lemma_keys_distinct(b.id, id);
    lemma_keys_distinct(u.id, id);
}

/// Reading a board that was never written gives "absent", not an error.
pub proof fn lemma_missing_board_absent(m: CacheState, id: u128)
    requires
        !m.contains_key(board_key(id)),
    ensures
        lookup(board_reply(m, board_key(id))) == Ok::<Option<BoardView>, Error>(None),
{
}

/// Reading a user that was never written gives "absent", not an error.
pub proof fn lemma_missing_user_absent(m: CacheState, id: u128)
    requires
        !m.contains_key(user_key(id)),
    ensures
        lookup(user_reply(m, user_key(id))) == Ok::<Option<UserView>, Error>(None),
{
}

} // verus!
