use crate::db::{
    board_key, board_reply, board_reply_view, is_random_id, lookup, scoreboard_key, set_board,
    BoardView, CacheReply, CacheState, Id, ScoreBoard,
};
use crate::error::{ClientError, ClientErrorKind, Error, Result};
use tokio::sync::mpsc::error::TrySendError;
use tokio::sync::mpsc::Sender;
use vstd::prelude::*;

verus! {

/// Every request that a client can send over a socket connection.
#[derive(Debug, Clone)]
#[allow(inconsistent_fields)]
pub enum ClientMessage {
    AddMember { name: String },
    DeleteMember { name: String },
    UpdateScore { name: String, score: u64 },
    CreateScoreBoard,
    JoinRoom { id: String },
    GetScoreBoard { id: Id },
}

/// Every successful answer to a [`ClientMessage`].
#[derive(Debug, Clone)]
#[allow(inconsistent_fields)]
pub enum ClientResponse {
    CreateScoreBoard { id: Id },
    GetScoreBoard { scoreboard: ScoreBoard },
    JoinRoom { id: String },
}

impl ClientMessage {
    /// A copy of this message, equal to it.
    pub fn duplicate(&self) -> (r: ClientMessage)
        ensures
            r == *self,
    {
        match self {
            ClientMessage::AddMember { name } => ClientMessage::AddMember { name: name.clone() },
            ClientMessage::DeleteMember { name } => ClientMessage::DeleteMember {
                name: name.clone(),
            },
            ClientMessage::UpdateScore { name, score } => ClientMessage::UpdateScore {
                name: name.clone(),
                score: *score,
            },
            ClientMessage::CreateScoreBoard => ClientMessage::CreateScoreBoard,
            ClientMessage::JoinRoom { id } => ClientMessage::JoinRoom { id: id.clone() },
            ClientMessage::GetScoreBoard { id } => ClientMessage::GetScoreBoard { id: *id },
        }
    }
}

/// The message of the failure for a scoreboard that is not in the cache.
pub open spec fn board_not_found_text() -> Seq<char> {
    "Scoreboard not found"@
}

/// The message of the failure for a request that this core does not serve.
pub open spec fn unsupported_text() -> Seq<char> {
    "The method sent is not supported"@
}

/// Whether `r` is the client failure of kind `kind` with message `text`.
pub open spec fn is_client_failure<T>(r: Result<T>, kind: ClientErrorKind, text: Seq<char>) -> bool {
    &&& r is Err
    &&& r->Err_0 is ClientError
    &&& r->Err_0->ClientError_0@.kind == kind
    &&& r->Err_0->ClientError_0@.message == text
}

/// One step of serving a message: what the cache must do before the answer
/// is known, or the answer itself.
#[derive(Debug)]
pub enum Dispatch {
    /// Write `board` under `key`, then answer with [`board_stored`].
    StoreBoard { key: String, board: ScoreBoard },
    /// Read the board under `key`, then answer with [`board_fetched`].
    FetchBoard { key: String },
    /// The answer, with no cache work needed.
    Done(Result<ClientResponse>),
}

/// Whether `d` is the first step of serving `message`.
pub open spec fn dispatches(message: ClientMessage, d: Dispatch) -> bool {
    match message {
        ClientMessage::CreateScoreBoard => {
            &&& d matches Dispatch::StoreBoard { key, board }
            &&& is_random_id(board@.id)
            &&& board@.users.len() == 0
            &&& key@ == board_key(board@.id)
        },
        ClientMessage::GetScoreBoard { id } => {
            &&& d matches Dispatch::FetchBoard { key }
            &&& key@ == board_key(id@)
        },
        ClientMessage::JoinRoom { id } => d == Dispatch::Done(
            Ok(ClientResponse::JoinRoom { id }),
        ),
        _ => d matches Dispatch::Done(r) && is_client_failure(
            r,
            ClientErrorKind::UnsupportedMethod,
            unsupported_text(),
        ),
    }
}

/// The first step of serving one message: a new board to write, a board to
/// read, or the answer. A room id is echoed back as it came; requests that
/// change members or scores are refused as unsupported, never ignored.
pub fn handle_message(message: ClientMessage) -> (r: Dispatch)
    ensures
        dispatches(message, r),
{
    match message {
        ClientMessage::CreateScoreBoard => {
            let board = ScoreBoard::new();
            let key = scoreboard_key(&board.id());
            Dispatch::StoreBoard { key, board }
        },
        ClientMessage::GetScoreBoard { id } => Dispatch::FetchBoard { key: scoreboard_key(&id) },
        ClientMessage::JoinRoom { id } => Dispatch::Done(Ok(ClientResponse::JoinRoom { id })),
        _ => {
            proof {
                reveal_strlit("The method sent is not supported");
            }
            let e = ClientError::new(
                "The method sent is not supported",
                ClientErrorKind::UnsupportedMethod,
            );
            Dispatch::Done(Err(Error::ClientError(e)))
        },
    }
}

/// The answer once the new board `board` was written with outcome `outcome`.
pub open spec fn stored_answer(board: BoardView, outcome: Result<()>, r: Result<ClientResponse>) -> bool {
    match outcome {
        Ok(_) => r matches Ok(ClientResponse::CreateScoreBoard { id }) && id@ == board.id,
        Err(e) => r == Err::<ClientResponse, Error>(e),
    }
}

/// Ends the creation of a board: its id once it is written, else the
/// failure of the write.
pub fn board_stored(board: &ScoreBoard, outcome: Result<()>) -> (r: Result<ClientResponse>)
    ensures
        stored_answer(board@, outcome, r),
{
    match outcome {
        Ok(()) => Ok(ClientResponse::CreateScoreBoard { id: board.id() }),
        Err(e) => Err(e),
    }
}

/// The answer once the board was read and the read gave `read`.
pub open spec fn fetched_answer(read: Result<Option<ScoreBoard>>, r: Result<ClientResponse>) -> bool {
    match read {
        Ok(Some(b)) => r == Ok::<ClientResponse, Error>(
            ClientResponse::GetScoreBoard { scoreboard: b },
        ),
        Ok(None) => is_client_failure(r, ClientErrorKind::NotFound, board_not_found_text()),
        Err(e) => r == Err::<ClientResponse, Error>(e),
    }
}

/// Ends the read of a board: the board if present, a not-found failure if
/// absent, and the transport failure as it came.
pub fn board_fetched(read: Result<Option<ScoreBoard>>) -> (r: Result<ClientResponse>)
    ensures
        fetched_answer(read, r),
{
    match read {
        Ok(Some(scoreboard)) => Ok(ClientResponse::GetScoreBoard { scoreboard }),
        Ok(None) => {
            proof {
                reveal_strlit("Scoreboard not found");
            }
            Err(Error::ClientError(ClientError::not_found("Scoreboard not found")))
        },
        Err(e) => Err(e),
    }
}

/// Creating a board answers with the id of the board that was written, and
/// that id carries the bits of a freshly drawn random identifier.
pub proof fn lemma_create_answers_new_id(d: Dispatch, r: Result<ClientResponse>)
    requires
        dispatches(ClientMessage::CreateScoreBoard, d),
        d is StoreBoard,
        stored_answer(d->board@, Ok(()), r),
    ensures
        r matches Ok(ClientResponse::CreateScoreBoard { id }) && id@ == d->board@.id
            && is_random_id(id@),
{
}

/// Asking for a board that the cache never held ends in a not-found
/// failure, not in a transport failure.
pub proof fn lemma_missing_board_not_found(
    m: CacheState,
    id: Id,
    d: Dispatch,
    reply: CacheReply<ScoreBoard>,
    r: Result<ClientResponse>,
)
    requires
        !m.contains_key(board_key(id@)),
        dispatches(ClientMessage::GetScoreBoard { id }, d),
        board_reply_view(reply) == board_reply(m, d->FetchBoard_key@),
        fetched_answer(lookup(reply), r),
    ensures
        is_client_failure(r, ClientErrorKind::NotFound, board_not_found_text()),
{
}

/// A board created through dispatch and then asked for by the id of the
/// answer comes back equal to the board that was created.
pub proof fn lemma_create_then_get(
    m: CacheState,
    created: Dispatch,
    answer: Result<ClientResponse>,
    id: Id,
    fetch: Dispatch,
    reply: CacheReply<ScoreBoard>,
    r: Result<ClientResponse>,
)
    requires
        dispatches(ClientMessage::CreateScoreBoard, created),
        created is StoreBoard,
        stored_answer(created->board@, Ok(()), answer),
        answer == Ok::<ClientResponse, Error>(ClientResponse::CreateScoreBoard { id }),
        dispatches(ClientMessage::GetScoreBoard { id }, fetch),
        board_reply_view(reply) == board_reply(
            set_board(m, created->board@),
            fetch->FetchBoard_key@,
        ),
        fetched_answer(lookup(reply), r),
    ensures
        r matches Ok(ClientResponse::GetScoreBoard { scoreboard }) && scoreboard@
            == created->board@,
{
}

#[verifier::external_type_specification]
#[verifier::external_body]
#[verifier::reject_recursive_types(T)]
pub struct ExSender<T>(Sender<T>);

/// What became of one message offered to one session's queue.
#[derive(Debug, Clone, Copy, PartialEq, Eq, Structural)]
pub enum Delivery {
    /// The message is in the queue.
    Queued,
    /// The queue was full; the message was dropped for this session.
    Full,
    /// The session has ended; the message was dropped for it.
    Closed,
}

/// Relies on tokio::sync::mpsc::Sender::try_send: it never waits, and either
/// queues the message or refuses it because the queue is full or closed.
#[verifier::external_body]
fn offer(tx: &Sender<ClientMessage>, message: ClientMessage) -> (r: Delivery) {
    match tx.try_send(message) {
        Ok(()) => Delivery::Queued,
        Err(TrySendError::Full(_)) => Delivery::Full,
        Err(TrySendError::Closed(_)) => Delivery::Closed,
    }
}

/// The queues after `message` was offered to each in turn with outcomes
/// `outcomes`: a queue that took it has it last, the others are unchanged.
pub open spec fn broadcast(
    queued: Seq<Seq<ClientMessage>>,
    message: ClientMessage,
    outcomes: Seq<Delivery>,
) -> Seq<Seq<ClientMessage>> {
    Seq::new(
        queued.len(),
        |i: int|
            if outcomes[i] is Queued {
                queued[i].push(message)
            } else {
                queued[i]
            },
    )
}

/// The outbound queues of all live sessions, in the order in which the
/// sessions registered.
pub struct ConnectionPool {
    senders: Vec<Sender<ClientMessage>>,
    queued: Ghost<Seq<Seq<ClientMessage>>>,
}

impl View for ConnectionPool {
    type V = Seq<Seq<ClientMessage>>;

    /// For each registered session, the messages this pool has put in its
    /// queue, oldest first.
    closed spec fn view(&self) -> Seq<Seq<ClientMessage>> {
        Seq::new(
            self.senders@.len(),
            |j: int|
                if j < self.queued@.len() {
                    self.queued@[j]
                } else {
                    Seq::empty()
                },
        )
    }
}

impl ConnectionPool {
    /// The producer ends of the registered sessions' queues, in the order in
    /// which they registered; the `i`-th of them belongs to the session whose
    /// messages are `self@[i]`.
    pub closed spec fn producers(&self) -> Seq<Sender<ClientMessage>> {
        self.senders@
    }

    /// A pool with no session.
    pub fn new() -> (r: ConnectionPool)
        ensures
            r@ == Seq::<Seq<ClientMessage>>::empty(),
            r.producers() == Seq::<Sender<ClientMessage>>::empty(),
    {
        let r = ConnectionPool { senders: Vec::new(), queued: Ghost(Seq::empty()) };
        assert(r@ =~= Seq::<Seq<ClientMessage>>::empty());
        r
    }

    /// The number of registered sessions.
    pub fn len(&self) -> (r: usize)
        ensures
            r == self@.len(),
    {
        self.senders.len()
    }

    /// Registers the queue of one more session, after all the others, which
    /// stay as they were.
    pub fn add_connection(&mut self, tx: Sender<ClientMessage>)
        ensures
            final(self).producers() == old(self).producers().push(tx),
            final(self)@ == old(self)@.push(Seq::<ClientMessage>::empty()),
    {
        let ghost before = self@;
        self.senders.push(tx);
        self.queued = Ghost(before.push(Seq::empty()));
        assert(self@ =~= before.push(Seq::<ClientMessage>::empty()));
    }

    /// Offers `message` to every registered session, in the order of
    /// registration, and never waits: a queue that is full or closed misses
    /// this message and the others still get it. Returns what became of the
    /// message for each session: `r@[i]` is the outcome of offering it to
    /// `producers()[i]`. The registered producers and their order are left
    /// as they were.
    pub fn send_all(&mut self, message: &ClientMessage) -> (r: Vec<Delivery>)
        ensures
            final(self).producers() == old(self).producers(),
            r@.len() == old(self)@.len(),
            final(self)@ == broadcast(old(self)@, *message, r@),
    {
        let ghost before = self@;
        let ghost registered = self.senders@;
        self.queued = Ghost(before);
        let mut outcomes: Vec<Delivery> = Vec::new();
        let mut i: usize = 0;
        while i < self.senders.len()
            invariant
                i <= self.senders@.len(),
                self.senders@ == registered,
                self.queued@.len() == self.senders@.len(),
                before.len() == self.senders@.len(),
                outcomes@.len() == i,
                forall|j: int|
                    0 <= j < i ==> #[trigger] self.queued@[j] == (if outcomes@[j] is Queued {
                        before[j].push(*message)
                    } else {
                        before[j]
                    }),
                forall|j: int| i <= j < self.senders@.len() ==> #[trigger] self.queued@[j] == before[j],
            decreases self.senders@.len() - i,
        {
            let outcome = offer(&self.senders[i], message.duplicate());
            if outcome == Delivery::Queued {
                self.queued = Ghost(self.queued@.update(i as int, self.queued@[i as int].push(*message)));
            }
            outcomes.push(outcome);
            i = i + 1;
        }
        assert(self@ =~= self.queued@);
        assert(self.queued@ =~= broadcast(before, *message, outcomes@));
        outcomes
    }
}

/// A broadcast reaches each session independently: a session that took the
/// message has it appended, one whose queue was full or closed is left as it
/// was, whatever happened at the other sessions.
pub proof fn lemma_broadcast_each(
    queued: Seq<Seq<ClientMessage>>,
    message: ClientMessage,
    outcomes: Seq<Delivery>,
    i: int,
)
    requires
        outcomes.len() == queued.len(),
        0 <= i < queued.len(),
    ensures
        broadcast(queued, message, outcomes).len() == queued.len(),
        outcomes[i] is Queued ==> broadcast(queued, message, outcomes)[i] == queued[i].push(message),
        !(outcomes[i] is Queued) ==> broadcast(queued, message, outcomes)[i] == queued[i],
{
}

/// Two broadcasts in turn: every session that took both has them in the
/// order in which the broadcasts were made.
pub proof fn lemma_broadcast_order(
    queued: Seq<Seq<ClientMessage>>,
    first: ClientMessage,
    first_outcomes: Seq<Delivery>,
    second: ClientMessage,
    second_outcomes: Seq<Delivery>,
    i: int,
)
    requires
        first_outcomes.len() == queued.len(),
        second_outcomes.len() == queued.len(),
        0 <= i < queued.len(),
        first_outcomes[i] is Queued,
        second_outcomes[i] is Queued,
    ensures
        broadcast(broadcast(queued, first, first_outcomes), second, second_outcomes)[i]
            == queued[i] + seq![first, second],
{
    assert(queued[i].push(first).push(second) =~= queued[i] + seq![first, second]);
}

} // verus!
