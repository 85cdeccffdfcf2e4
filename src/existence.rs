use vstd::prelude::*;
use crate::protocol::{action_ready, ensure_follows, Ensure, Meet};

verus! {

/// Marks `T` as something that exists.
#[derive(Debug, PartialEq, PartialOrd)]
pub struct Present<T>(pub T);

/// Marks `T` as something that does not exist.
#[derive(Debug, PartialEq, PartialOrd)]
pub struct Absent<T>(pub T);

impl<T> core::ops::Deref for Present<T> {
    type Target = T;

    fn deref(&self) -> (r: &T)
        ensures
            r == &self.0,
    {
        &self.0
    }
}

impl<T> core::ops::Deref for Absent<T> {
    type Target = T;

    fn deref(&self) -> (r: &T)
        ensures
            r == &self.0,
    {
        &self.0
    }
}

/// Objects that can be brought both into existence and out of it: those that implement
/// `Ensure<Present<T>>` and `Ensure<Absent<T>>` with one error type.
pub trait Existential<T>: Sized {
    type Error;

    /// Whether the object may be inspected for its presence.
    spec fn present_requires(&self) -> bool;

    /// The outcomes that ensuring the object's presence may produce.
    spec fn present_ensures(&self, r: Result<Present<T>, Self::Error>) -> bool;

    /// Whether the object may be inspected for its absence.
    spec fn absent_requires(&self) -> bool;

    /// The outcomes that ensuring the object's absence may produce.
    spec fn absent_ensures(&self, r: Result<Absent<T>, Self::Error>) -> bool;

    /// Ensures that `T` is `Present<T>`.
    fn ensure_present(self) -> (r: Result<Present<T>, Self::Error>)
        requires
            self.present_requires(),
        ensures
            self.present_ensures(r),
    ;

    /// Ensures that `T` is `Absent<T>`.
    fn ensure_absent(self) -> (r: Result<Absent<T>, Self::Error>)
        requires
            self.absent_requires(),
        ensures
            self.absent_ensures(r),
    ;
}

impl<T, E, R, PA, AA> Existential<T> for R where
    R: Ensure<Present<T>, EnsureAction = PA>,
    PA: Meet<Met = Present<T>, Error = E>,
    R: Ensure<Absent<T>, EnsureAction = AA>,
    AA: Meet<Met = Absent<T>, Error = E>,
 {
    type Error = E;

    open spec fn present_requires(&self) -> bool {
        <R as Ensure<Present<T>>>::check_requires(self)
    }

    open spec fn present_ensures(&self, r: Result<Present<T>, E>) -> bool {
        exists|c|
            <R as Ensure<Present<T>>>::check_ensures(self, c) && action_ready(c)
                && ensure_follows(c, r)
    }

    open spec fn absent_requires(&self) -> bool {
        <R as Ensure<Absent<T>>>::check_requires(self)
    }

    open spec fn absent_ensures(&self, r: Result<Absent<T>, E>) -> bool {
        exists|c|
            <R as Ensure<Absent<T>>>::check_ensures(self, c) && action_ready(c)
                && ensure_follows(c, r)
    }

    fn ensure_present(self) -> (r: Result<Present<T>, E>) {
        <R as Ensure<Present<T>>>::ensure(self)
    }

    fn ensure_absent(self) -> (r: Result<Absent<T>, E>) {
        <R as Ensure<Absent<T>>>::ensure(self)
    }
}

} // verus!
