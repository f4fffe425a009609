//! The counter that the demonstration page shows.

use vstd::prelude::*;
use vstd::string::StringExecFns;

verus! {

/// A counter value as it is shown.
#[derive(Debug, Clone, Copy, PartialEq, Eq, Structural)]
pub struct Counter {
    /// The value.
    pub value: i32,
}

impl Counter {
    /// A counter that shows `value`.
    pub fn new(value: i32) -> (counter: Self)
        ensures
            counter.value == value,
    {
        Self { value }
    }
}

/// Where the counter is read.
pub trait CounterRepository {
    /// The counter, or the message of the failure.
    fn get_counter(&self) -> Result<Counter, String>;
}

/// The message for a counter that could not be read for the reason `cause`.
pub open spec fn failure_text(cause: Seq<char>) -> Seq<char> {
    "Failed to get counter: "@ + cause
}

/// Answers from the reply of the server: a value, or the reason why there is
/// none.
pub struct CounterRepositoryImpl {
    reply: Result<i32, String>,
}

impl CounterRepositoryImpl {
    /// The reply that this repository answers from.
    pub closed spec fn reply(&self) -> Result<i32, String> {
        self.reply
    }

    /// A repository for one reply.
    pub fn new(reply: Result<i32, String>) -> (repository: Self)
        ensures
            repository.reply() == reply,
    {
        CounterRepositoryImpl { reply }
    }
}

impl CounterRepository for CounterRepositoryImpl {
    /// The counter of the reply, or the reason of the reply behind the words
    /// that say what failed.
    fn get_counter(&self) -> (result: Result<Counter, String>)
        ensures
            match result {
                Ok(counter) => self.reply() == Ok::<i32, String>(counter.value),
                Err(message) => self.reply() matches Err(cause) && message@ == failure_text(
                    cause@,
                ),
            },
    {
        match &self.reply {
            Ok(value) => Ok(Counter::new(*value)),
            Err(cause) => {
                let mut message = "Failed to get counter: ".to_owned();
                message.append(cause.as_str());
                Err(message)
            },
        }
    }
}

/// The use case of showing the counter.
pub struct GetCounterUseCase;

impl GetCounterUseCase {
    /// Asks `repository` for the counter.
    pub fn execute(repository: &CounterRepositoryImpl) -> (result: Result<Counter, String>)
        ensures
            match result {
                Ok(counter) => repository.reply() == Ok::<i32, String>(counter.value),
                Err(message) => repository.reply() matches Err(cause) && message@
                    == failure_text(cause@),
            },
    {
        repository.get_counter()
    }
}

} // verus!
