//! Tasks: what is run on a connection.
//!
//! A panic in a task is reported as a failure of the runtime, so a task that panics by
//! itself would turn an operation that works into an error. What is run on a connection
//! is therefore put together from parts, each of which says where it does not panic. The
//! code around a part is checked not to unwind where the part does not.
use std::ops::Deref;

use vstd::prelude::*;

use crate::call::{both, call_with, call_with_both};

verus! {

/// Something that is run once, with an argument.
pub trait Task<A, R>: Sized {
    /// It may be run with `argument`.
    spec fn accepts(self, argument: A) -> bool;

    /// `result` is what it returns for `argument`.
    spec fn gives(self, argument: A, result: R) -> bool;

    /// It does not panic where it is run with `argument`.
    spec fn steady(self, argument: A) -> bool;

    /// Runs it.
    fn run(self, argument: A) -> (result: R)
        requires
            self.accepts(argument),
        ensures
            self.gives(argument, result),
        no_unwind when self.steady(argument)
    ;
}

/// Runs `task` with the very argument.
pub(crate) fn run_with<A, R, T: Task<A, R>>(argument: A, task: T) -> (result: R)
    requires
        task.accepts(argument),
    ensures
        task.gives(argument, result),
    no_unwind when task.steady(argument)
{
    task.run(argument)
}

/// A value that lends what it holds.
pub trait Holder {
    type Lent: ?Sized;

    /// `lent` is what it lends.
    spec fn lends(&self, lent: &Self::Lent) -> bool;

    /// It does not panic where it lends.
    spec fn lends_steadily(&self) -> bool;

    /// Lends what it holds.
    fn lend(&self) -> (lent: &Self::Lent)
        ensures
            self.lends(lent),
        no_unwind when self.lends_steadily()
    ;
}

impl<D: Deref> Holder for D {
    type Lent = <D as Deref>::Target;

    open spec fn lends(&self, lent: &Self::Lent) -> bool {
        call_ensures(<D as Deref>::deref, (self,), lent)
    }

    open spec fn lends_steadily(&self) -> bool {
        false
    }

    fn lend(&self) -> (lent: &Self::Lent) {
        self.deref()
    }
}

/// An operation that the caller gave. It may panic.
pub struct Given<F>(pub F);

impl<A, R, F: FnOnce(A) -> R> Task<A, R> for Given<F> {
    open spec fn accepts(self, argument: A) -> bool {
        call_requires(self.0, (argument,))
    }

    open spec fn gives(self, argument: A, result: R) -> bool {
        call_ensures(self.0, (argument,), result)
    }

    open spec fn steady(self, argument: A) -> bool {
        false
    }

    fn run(self, argument: A) -> (result: R) {
        call_with(argument, self.0)
    }
}

/// An operation with two arguments that the caller gave. It may panic.
pub struct GivenForTwo<F>(pub F);

impl<A, B, R, F: FnOnce(A, B) -> R> Task<(A, B), R> for GivenForTwo<F> {
    open spec fn accepts(self, argument: (A, B)) -> bool {
        call_requires(self.0, (argument.0, argument.1))
    }

    open spec fn gives(self, argument: (A, B), result: R) -> bool {
        call_ensures(self.0, (argument.0, argument.1), result)
    }

    open spec fn steady(self, argument: (A, B)) -> bool {
        false
    }

    fn run(self, argument: (A, B)) -> (result: R) {
        let (first, second) = argument;
        call_with_both(first, second, self.0)
    }
}

/// A task that takes an address, with the address to connect to.
pub struct Connecting<H, E> {
    pub address: H,
    pub connect: E,
}

impl<R, H: Holder, E: for <'t>Task<&'t H::Lent, R>> Task<(), R> for Connecting<H, E> {
    open spec fn accepts(self, argument: ()) -> bool {
        forall|text: &H::Lent| #[trigger]
            self.address.lends(text) ==> self.connect.accepts(text)
    }

    open spec fn gives(self, argument: (), result: R) -> bool {
        exists|text: &H::Lent| #[trigger]
            self.address.lends(text) && self.connect.gives(text, result)
    }

    open spec fn steady(self, argument: ()) -> bool {
        &&& self.address.lends_steadily()
        &&& forall|text: &H::Lent| #[trigger]
            self.address.lends(text) ==> self.connect.steady(text)
    }

    fn run(self, argument: ()) -> (result: R) {
        self.connect.run(self.address.lend())
    }
}

/// A task that takes a text beside its argument, with the text to execute.
pub struct Batch<H, E> {
    pub query: H,
    pub execute: E,
}

impl<A, R, H: Holder, E: for <'t>Task<(A, &'t H::Lent), R>> Task<A, R> for Batch<H, E> {
    open spec fn accepts(self, argument: A) -> bool {
        forall|text: &H::Lent| #[trigger]
            self.query.lends(text) ==> self.execute.accepts((argument, text))
    }

    open spec fn gives(self, argument: A, result: R) -> bool {
        exists|text: &H::Lent| #[trigger]
            self.query.lends(text) && self.execute.gives((argument, text), result)
    }

    open spec fn steady(self, argument: A) -> bool {
        &&& self.query.lends_steadily()
        &&& forall|text: &H::Lent| #[trigger]
            self.query.lends(text) ==> self.execute.steady((argument, text))
    }

    fn run(self, argument: A) -> (result: R) {
        let argument = both(argument, self.query.lend());
        self.execute.run(argument)
    }
}

/// A task that takes a query beside its argument, with what came of preparing the query.
/// Where that is an error, so is the result.
pub struct Prepared<Q, X, E> {
    pub query: Result<Q, X>,
    pub callback: E,
}

impl<A, R, Q, X, E: for <'q>Task<(A, &'q Q), Result<R, X>>> Task<A, Result<R, X>> for Prepared<
    Q,
    X,
    E,
> {
    open spec fn accepts(self, argument: A) -> bool {
        self.query matches Ok(query) ==> self.callback.accepts((argument, &query))
    }

    open spec fn gives(self, argument: A, result: Result<R, X>) -> bool {
        match self.query {
            Ok(query) => self.callback.gives((argument, &query), result),
            Err(error) => result == Err::<R, X>(error),
        }
    }

    open spec fn steady(self, argument: A) -> bool {
        self.query matches Ok(query) ==> self.callback.steady((argument, &query))
    }

    fn run(self, argument: A) -> (result: Result<R, X>) {
        match self.query {
            Ok(query) => {
                let argument = both(argument, &query);
                self.callback.run(argument)
            },
            Err(error) => Err(error),
        }
    }
}

} // verus!
