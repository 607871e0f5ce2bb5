use vstd::prelude::*;

verus! {

/// Errors reported by the consensus library.
#[derive(Debug)]
pub enum HotStuffError {
    /// A storage component refused the request.
    Storage(String),
    /// A message failed validation.
    InvalidMessage(String),
    /// The consensus protocol could not proceed.
    Consensus(String),
    /// The timer component refused the request.
    Timer(String),
    /// A state transition was found to be inconsistent.
    InvalidStateTransition(String),
}

impl HotStuffError {
    /// The category of the error, without its message.
    pub open spec fn kind(&self) -> ErrorKind {
        match self {
            HotStuffError::Storage(_) => ErrorKind::Storage,
            HotStuffError::InvalidMessage(_) => ErrorKind::InvalidMessage,
            HotStuffError::Consensus(_) => ErrorKind::Consensus,
            HotStuffError::Timer(_) => ErrorKind::Timer,
            HotStuffError::InvalidStateTransition(_) => ErrorKind::InvalidStateTransition,
        }
    }

    /// The message carried by the error.
    pub open spec fn message(&self) -> Seq<char> {
        match self {
            HotStuffError::Storage(m) => m@,
            HotStuffError::InvalidMessage(m) => m@,
            HotStuffError::Consensus(m) => m@,
            HotStuffError::Timer(m) => m@,
            HotStuffError::InvalidStateTransition(m) => m@,
        }
    }

    /// Builds a storage error with the given message.
    pub fn storage(msg: &str) -> (e: HotStuffError)
        ensures
            e.kind() == ErrorKind::Storage,
            e.message() == msg@,
    {
        HotStuffError::Storage(String::from_str(msg))
    }

    /// Builds an invalid-message error with the given message.
    pub fn invalid_message(msg: &str) -> (e: HotStuffError)
        ensures
            e.kind() == ErrorKind::InvalidMessage,
            e.message() == msg@,
    {
        HotStuffError::InvalidMessage(String::from_str(msg))
    }

    /// Builds a timer error with the given message.
    pub fn timer(msg: &str) -> (e: HotStuffError)
        ensures
            e.kind() == ErrorKind::Timer,
            e.message() == msg@,
    {
        HotStuffError::Timer(String::from_str(msg))
    }

    /// Builds a consensus error with the given message.
    pub fn consensus(msg: &str) -> (e: HotStuffError)
        ensures
            e.kind() == ErrorKind::Consensus,
            e.message() == msg@,
    {
        HotStuffError::Consensus(String::from_str(msg))
    }

    /// The category of the error, without its message.
    pub fn error_kind(&self) -> (k: ErrorKind)
        ensures
            k == self.kind(),
    {
        match self {
            HotStuffError::Storage(_) => ErrorKind::Storage,
            HotStuffError::InvalidMessage(_) => ErrorKind::InvalidMessage,
            HotStuffError::Consensus(_) => ErrorKind::Consensus,
            HotStuffError::Timer(_) => ErrorKind::Timer,
            HotStuffError::InvalidStateTransition(_) => ErrorKind::InvalidStateTransition,
        }
    }

    /// A readable rendering of the error.
    pub fn describe(&self) -> (s: String)
        ensures
            s@ == self.message(),
    {
        match self {
            HotStuffError::Storage(m) => m.clone(),
            HotStuffError::InvalidMessage(m) => m.clone(),
            HotStuffError::Consensus(m) => m.clone(),
            HotStuffError::Timer(m) => m.clone(),
            HotStuffError::InvalidStateTransition(m) => m.clone(),
        }
    }
}

/// The categories of [`HotStuffError`].
#[derive(Clone, Copy, Debug, PartialEq, Eq, Structural)]
pub enum ErrorKind {
    Storage,
    InvalidMessage,
    Consensus,
    Timer,
    InvalidStateTransition,
}

} // verus!
