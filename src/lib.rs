//! A small single-actor execution core: a handler driven through its
//! lifecycle, one delivered message at a time, with a recovery policy for
//! failed messages.
pub mod actor;
pub mod laws;
pub mod lifecycle;
pub mod types;

pub use actor::{ActorImpl, Flow, Handler, Phase};
pub use types::{
    ActorId, ActorLabel, ActorState, ErrorRecord, Message, MessageBytes, Recover, TheaterError,
    TheaterResult,
};
