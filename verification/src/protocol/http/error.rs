//! Errors of request handling, and what a client is told of them.

use vstd::prelude::*;

verus! {

/// How deep a chain of causes is searched.
pub const MAX_ERROR_CHAIN_DEPTH: usize = 10;

/// The cause at depth `i` is the first that is of the type looked for.
pub open spec fn first_found<T>(causes: Seq<Option<T>>, i: int) -> bool {
    &&& 0 <= i < causes.len()
    &&& i < MAX_ERROR_CHAIN_DEPTH
    &&& causes[i] is Some
    &&& forall|j: int| 0 <= j < i ==> #[trigger] causes[j] is None
}

/// Looks for a cause of one type among the causes of an error, nearest first. `causes` holds
/// for each cause the value of that type, if it is one. At most ten causes are looked at.
pub fn find_in_error_chain<T>(causes: &[Option<T>]) -> (out: Option<&T>)
    ensures
        match out {
            Some(t) => exists|i: int| #[trigger]
                first_found(causes@, i) && causes@[i] == Some(*t),
            None => forall|i: int| !#[trigger] first_found(causes@, i),
        },
{
    let n: usize = if causes.len() < MAX_ERROR_CHAIN_DEPTH {
        causes.len()
    } else {
        MAX_ERROR_CHAIN_DEPTH
    };
    for i in 0..n
        invariant
            n <= causes@.len(),
            n <= MAX_ERROR_CHAIN_DEPTH,
            forall|j: int| 0 <= j < i ==> #[trigger] causes@[j] is None,
    {
        match &causes[i] {
            Some(t) => {
                assert(first_found(causes@, i as int));
                return Some(t);
            },
            None => {},
        }
    }
    None
}

/// An error while a request is handled.
#[derive(Debug)]
pub enum AppError {
    /// Something went wrong; the text is logged and never sent to the client.
    Internal(String),
    /// The request took too long.
    Timeout,
}

impl AppError {
    /// The status that the client gets.
    pub open spec fn status(self) -> u16 {
        match self {
            AppError::Internal(_) => 500,
            AppError::Timeout => 408,
        }
    }

    /// Computes the status that the client gets.
    pub fn status_code(&self) -> (out: u16)
        ensures
            out == self.status(),
    {
        match self {
            AppError::Internal(_) => 500,
            AppError::Timeout => 408,
        }
    }

    /// The text for logs.
    pub open spec fn shown(self) -> Seq<char> {
        match self {
            AppError::Internal(e) => "internal error: "@ + e@,
            AppError::Timeout => "request timeout"@,
        }
    }

    /// Writes the text for logs.
    pub fn message(&self) -> (out: String)
        ensures
            out@ == self.shown(),
    {
        match self {
            AppError::Internal(e) => String::from_str("internal error: ").concat(e),
            AppError::Timeout => String::from_str("request timeout"),
        }
    }
}

/// Among the first ten causes the first one of the kind is found, and none beyond them.
pub proof fn only_near_causes_are_found<T>(causes: Seq<Option<T>>, i: int)
    ensures
        first_found(causes, i) <==> 0 <= i < causes.len() && i < 10 && causes[i] is Some && (forall|
            j: int,
        |
            0 <= j < i ==> #[trigger] causes[j] is None),
{
}

/// An internal error has status 500 and a timeout 408, and each is told as such.
pub proof fn errors_have_their_status(why: String)
    ensures
        AppError::Internal(why).status() == 500,
        AppError::Timeout.status() == 408,
        AppError::Internal(why).shown() == "internal error: "@ + why@,
        AppError::Timeout.shown() == "request timeout"@,
{
}

} // verus!
