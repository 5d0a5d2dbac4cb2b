use vstd::prelude::*;

verus! {

/// What one attempt of the operation came to: a success to hand back,
/// a failure worth retrying, or a failure that ends the run at once.
pub enum OperationResult<T, E> {
    Success(T),
    Retry(E),
    Fatal(E),
}

impl<T, E> From<Result<T, E>> for OperationResult<T, E> {
    /// A plain fallible result carries no retry decision of its own:
    /// every failure is taken as retryable.
    fn from(item: Result<T, E>) -> (r: Self) {
        match item {
            Ok(v) => OperationResult::Success(v),
            Err(e) => OperationResult::Retry(e),
        }
    }
}

impl<T, E> vstd::std_specs::convert::FromSpecImpl<Result<T, E>> for OperationResult<T, E> {
    open spec fn obeys_from_spec() -> bool {
        true
    }

    open spec fn from_spec(item: Result<T, E>) -> Self {
        match item {
            Ok(v) => OperationResult::Success(v),
            Err(e) => OperationResult::Retry(e),
        }
    }
}

impl<T, E> OperationResult<T, E> {
    pub fn is_ok(&self) -> (b: bool)
        ensures
            b == (self is Success),
    {
        matches!(self, OperationResult::Success(_))
    }

    pub fn is_retry(&self) -> (b: bool)
        ensures
            b == (self is Retry),
    {
        matches!(self, OperationResult::Retry(_))
    }

    pub fn is_err(&self) -> (b: bool)
        ensures
            b == (self is Fatal),
    {
        matches!(self, OperationResult::Fatal(_))
    }
}

} // verus!
