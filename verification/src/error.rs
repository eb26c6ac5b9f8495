use vstd::prelude::*;

verus! {

/// The errors of this library.
#[derive(Debug)]
pub enum TError {
    /// Installing the global logger failed; holds the logger's own message.
    Logger(String),
}

impl TError {
    /// The text of the error.
    pub open spec fn spec_message(&self) -> Seq<char> {
        match self {
            TError::Logger(msg) => msg@,
        }
    }

    /// The text of the error, as the error it wraps words it.
    pub fn message(&self) -> (r: String)
        ensures
            r@ == self.spec_message(),
    {
        match self {
            TError::Logger(msg) => msg.clone(),
        }
    }
}

/// The result type of this library's fallible operations.
pub type TResult<T> = Result<T, TError>;

} // verus!
