//! A one-shot completion signal with any number of waiters.
//!
//! A [`FutureCompletion`] hands out [`CompletionFuture`]s and publishes one value to all of
//! them. The decisions live in [`SharedState`], whose behaviour is stated over [`SharedView`].

mod waker;

pub mod completion;

pub mod laws;

pub mod state;

pub use completion::{CompletionFuture, FutureCompletion};
pub use state::{AlreadyCompleted, SharedState, SharedView};
