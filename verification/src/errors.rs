//! What an operation of the registry reports when it cannot be completed.

use vstd::prelude::*;

verus! {

/// Why an operation failed.
#[derive(Clone, Copy, Debug, PartialEq, Eq, Structural)]
pub enum Error {
    /// The durable store could not carry out a statement.
    Sqlite,
    /// The cache could not carry out a command.
    Redis,
    /// A value held by the cache is not the text of a relation.
    ParseInt,
}

impl Error {
    /// The sentence that `message` returns.
    pub open spec fn message_text(&self) -> Seq<char> {
        match self {
            Error::Sqlite => "the durable store failed"@,
            Error::Redis => "the cache failed"@,
            Error::ParseInt => "invalid digit found in string"@,
        }
    }

    /// A sentence for the error, for logs and messages.
    pub fn message(&self) -> (r: &'static str)
        ensures
            r@ == self.message_text(),
            r@.len() > 0,
    {
        proof {
            reveal_strlit("the durable store failed");
            reveal_strlit("the cache failed");
            reveal_strlit("invalid digit found in string");
        }
        match self {
            Error::Sqlite => "the durable store failed",
            Error::Redis => "the cache failed",
            Error::ParseInt => "invalid digit found in string",
        }
    }
}

} // verus!
