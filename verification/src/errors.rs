//! Errors that remember what caused them.

use vstd::prelude::*;
use vstd::string::*;
use crate::text::texts;

verus! {

/// A failure together with the chain of failures that led to it.
///
/// The chain runs from the failure itself, through each underlying cause in
/// turn, down to the root cause. It is never empty.
#[derive(Debug, PartialEq, Eq)]
pub struct Error {
    message: String,
    causes: Vec<String>,
}

impl View for Error {
    type V = Seq<Seq<char>>;

    /// The messages of the chain: the failure first, the root cause last.
    closed spec fn view(&self) -> Seq<Seq<char>> {
        seq![self.message@] + texts(self.causes@)
    }
}

impl Error {
    /// Every error has a message of its own.
    pub proof fn lemma_chain_nonempty(&self)
        ensures
            self@.len() >= 1,
    {
    }

    /// The error whose chain is made of the given messages, the failure
    /// itself first and the root cause last. There is none for an empty chain.
    pub fn from_chain(messages: Vec<String>) -> (error: Option<Error>)
        ensures
            messages@.len() == 0 ==> error is None,
            messages@.len() > 0 ==> (error matches Some(built) && built@ == texts(messages@)),
    {
        let mut causes = messages;
        if causes.len() == 0 {
            None
        } else {
            let message = causes.remove(0);
            Some(Error { message, causes })
        }
    }

    /// The messages of the whole chain, the failure itself first and the
    /// root cause last.
    pub fn chain(&self) -> (messages: Vec<String>)
        ensures
            texts(messages@) == self@,
    {
        let mut messages: Vec<String> = Vec::new();
        messages.push(self.message.clone());
        let mut i: usize = 0;
        while i < self.causes.len()
            invariant
                i <= self.causes.len(),
                messages@.len() == i + 1,
                texts(messages@) == self@.take(i + 1),
            decreases self.causes.len() - i,
        {
            messages.push(self.causes[i].clone());
            i += 1;
        }
        messages
    }

    /// Wraps this error in a description of what was being attempted. The
    /// description becomes the error's message and the old chain its causes.
    pub fn context(self, context: &str) -> (wrapped: Error)
        ensures
            wrapped@ == seq![context@] + self@,
    {
        let Error { message, mut causes } = self;
        causes.insert(0, message);
        Error { message: String::from_str(context), causes }
    }

    /// The error's own message, without its causes.
    pub fn to_string(&self) -> (message: String)
        ensures
            message@ == self@[0],
    {
        self.message.clone()
    }

    /// The messages of the causes, from the immediate cause to the root cause.
    pub fn causes(&self) -> (causes: &Vec<String>)
        ensures
            texts(causes@) == self@.skip(1),
    {
        &self.causes
    }
}

/// An error with the given message and no cause.
pub fn err_msg(message: &str) -> (error: Error)
    ensures
        error@ == seq![message@],
{
    Error { message: String::from_str(message), causes: Vec::new() }
}

/// Reading an absent value as a failure.
pub trait NoneErrorContext<T> {
    /// Turns an `Option` into a `Result`, with `explanation` as the message of
    /// the error that stands for `None`.
    fn none_means(self, explanation: &str) -> Result<T, Error>;
}

impl<T> NoneErrorContext<T> for Option<T> {
    fn none_means(self, explanation: &str) -> (result: Result<T, Error>)
        ensures
            match self {
                Some(value) => result == Ok::<T, Error>(value),
                None => result matches Err(error) && error@ == seq![explanation@],
            },
    {
        match self {
            Some(value) => Ok(value),
            None => Err(err_msg(explanation)),
        }
    }
}

} // verus!
