use vstd::prelude::*;

verus! {

/// What a caller did wrong, as it is reported back to that caller.
#[derive(Debug, Clone, Copy, PartialEq, Eq, Structural)]
pub enum ClientErrorKind {
    NotFound,
    UnsupportedMethod,
}

/// A typed failure that a client can act on: a kind and a readable message.
#[derive(Debug, Clone)]
pub struct ClientError {
    kind: ClientErrorKind,
    message: String,
}

/// The mathematical value of a [`ClientError`].
pub struct ClientErrorView {
    pub kind: ClientErrorKind,
    pub message: Seq<char>,
}

impl View for ClientError {
    type V = ClientErrorView;

    closed spec fn view(&self) -> ClientErrorView {
        ClientErrorView { kind: self.kind, message: self.message@ }
    }
}

impl ClientError {
    pub fn new(message: &str, kind: ClientErrorKind) -> (r: Self)
        ensures
            r@.kind == kind,
            r@.message == message@,
    {
        ClientError { kind, message: message.to_owned() }
    }

    pub fn not_found(message: &str) -> (r: Self)
        ensures
            r@.kind == ClientErrorKind::NotFound,
            r@.message == message@,
    {
        ClientError { kind: ClientErrorKind::NotFound, message: message.to_owned() }
    }

    pub fn kind(&self) -> (r: ClientErrorKind)
        ensures
            r == self@.kind,
    {
        self.kind
    }

    /// The readable message, as it is shown to the client.
    pub fn message(&self) -> (r: &str)
        ensures
            r@ == self@.message,
    {
        self.message.as_str()
    }
}

/// Where a failure outside the core came from. These are not recoverable
/// locally; no detail of them is ever sent to a peer.
#[derive(Debug, Clone, Copy, PartialEq, Eq, Structural)]
pub enum Fault {
    Cache,
    Encoding,
    Socket,
    Http,
    Database,
}

/// Every failure of the core: a typed client error, or a transport fault.
#[derive(Debug, Clone)]
pub enum Error {
    ClientError(ClientError),
    Transport(Fault),
}

pub type Result<T> = core::result::Result<T, Error>;

} // verus!
