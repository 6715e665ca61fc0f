use vstd::prelude::*;

verus! {

/// Outcome of a use case: a value, the absence of the record asked for, or a
/// failure with its reason.
#[derive(Debug)]
pub enum DomainResult<T, E> {
    Success(T),
    NotFound,
    Failure(E),
}

impl<T, E> DomainResult<T, E> {
    pub fn ok(value: T) -> (r: Self)
        ensures
            r == DomainResult::<T, E>::Success(value),
    {
        Self::Success(value)
    }

    pub fn not_found() -> (r: Self)
        ensures
            r == DomainResult::<T, E>::NotFound,
    {
        Self::NotFound
    }

    pub fn err(error: E) -> (r: Self)
        ensures
            r == DomainResult::<T, E>::Failure(error),
    {
        Self::Failure(error)
    }
}

} // verus!
