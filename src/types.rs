use vstd::prelude::*;
use vstd::string::*;

verus! {

/// Uniquely identifies an actor within a process.
pub type ActorId = String;

/// Optional human-readable label of an actor.
pub type ActorLabel = String;

/// Opaque payload of a message.
pub type MessageBytes = Vec<u8>;

/// Lifecycle state of an actor.
#[derive(Clone, Copy, Debug, PartialEq, Eq, Structural)]
pub enum ActorState {
    Starting,
    Started,
    Running,
    Stopped,
    Terminating,
}

impl Default for ActorState {
    /// An actor is `Stopped` before its first run.
    fn default() -> (r: ActorState)
        ensures
            r == ActorState::Stopped,
    {
        ActorState::Stopped
    }
}

/// Failure of a handler while processing one message.
#[derive(Clone, Debug)]
pub enum TheaterError {
    Other(String),
}

impl TheaterError {
    /// The human-readable text the error carries.
    pub open spec fn spec_message(&self) -> Seq<char> {
        match self {
            TheaterError::Other(m) => m@,
        }
    }

    /// Returns the human-readable text the error carries.
    pub fn message(&self) -> (r: String)
        ensures
            r@ == self.spec_message(),
    {
        match self {
            TheaterError::Other(m) => m.clone(),
        }
    }
}

/// Envelope of an opaque payload sent by another actor.
#[derive(Clone, Debug, PartialEq, Eq)]
pub struct Message {
    pub from: ActorId,
    pub data: MessageBytes,
}

/// Either a value, or the state an actor recovers into after a failure.
#[derive(Debug)]
pub enum Recover<T> {
    Value(T),
    State(ActorState),
}

/// One error-level record: the failure and the context it was reported with.
#[derive(Debug)]
pub struct ErrorRecord<E> {
    pub context: String,
    pub error: E,
}

/// Text of a record: the context, `": "` and the message, or the message
/// alone where the context is empty.
pub open spec fn record_text(context: Seq<char>, message: Seq<char>) -> Seq<char> {
    if context.len() == 0 {
        message
    } else {
        context + seq![':', ' '] + message
    }
}

impl ErrorRecord<TheaterError> {
    /// Renders the record as one log line.
    pub fn text(&self) -> (r: String)
        ensures
            r@ == record_text(self.context@, self.error.spec_message()),
    {
        let message = self.error.message();
        if self.context.as_str().is_empty() {
            message
        } else {
            let mut line = self.context.clone();
            line.append(": ");
            line.append(message.as_str());
            proof {
                reveal_strlit(": ");
            }
            line
        }
    }
}

/// Result of a fallible handler operation, convertible into a [`Recover`].
#[derive(Debug)]
pub struct TheaterResult<T, E>(pub Result<T, E>);

impl<T, E> TheaterResult<T, E> {
    /// Converts the result with extra context: a value is forwarded, an
    /// error becomes the recovered state `Running` together with the one
    /// record to log, which holds `context` and the error.
    pub fn with_context(self, context: &str) -> (r: (Recover<T>, Option<ErrorRecord<E>>))
        ensures
            match self.0 {
                Ok(v) => r.0 == Recover::<T>::Value(v) && r.1 is None,
                Err(e) => {
                    &&& r.0 == Recover::<T>::State(ActorState::Running)
                    &&& r.1 matches Some(rec) && rec.context@ == context@ && rec.error == e
                },
            },
    {
        match self.0 {
            Ok(v) => (Recover::Value(v), None),
            Err(e) => {
                let rec = ErrorRecord { context: context.to_owned(), error: e };
                (Recover::State(ActorState::Running), Some(rec))
            },
        }
    }

    /// Shorthand for [`TheaterResult::with_context`] with an empty context:
    /// the record to log holds the error alone.
    pub fn on_err(self) -> (r: (Recover<T>, Option<ErrorRecord<E>>))
        ensures
            match self.0 {
                Ok(v) => r.0 == Recover::<T>::Value(v) && r.1 is None,
                Err(e) => {
                    &&& r.0 == Recover::<T>::State(ActorState::Running)
                    &&& r.1 matches Some(rec) && rec.context@.len() == 0 && rec.error == e
                },
            },
    {
        proof {
            reveal_strlit("");
        }
        self.with_context("")
    }

    /// The wrapped result.
    pub fn into_result(self) -> (r: Result<T, E>)
        ensures
            r == self.0,
    {
        self.0
    }

    /// A reference to the wrapped result.
    pub fn as_result(&self) -> (r: &Result<T, E>)
        ensures
            *r == self.0,
    {
        &self.0
    }
}

} // verus!
