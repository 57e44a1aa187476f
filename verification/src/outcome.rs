//! How a merge ends: with the node it leaves behind and, on failure, the error
//! it returns; or with a panic, which the merges' preconditions rule out.

use vstd::prelude::*;
use crate::lua::{LuaError, LuaErrorV};

verus! {

/// The end of a merge into a node whose mathematical form is `T`.
pub enum Outcome<T> {
    /// The merge returned `Ok` and left the node as given.
    Finished(T),
    /// The merge returned the error, and left the node as given.
    Failed(T, LuaErrorV),
    /// The merge panics.
    Panics,
}

/// The end of reading a value of form `T` out of a table.
pub enum Step<T> {
    Value(T),
    Fails(LuaErrorV),
    Panics,
}

/// `state` and `r` are what a merge that ends in `o` leaves and returns.
pub open spec fn outcome_holds<T>(o: Outcome<T>, state: T, r: Result<(), LuaError>) -> bool {
    match o {
        Outcome::Finished(s) => state == s && r is Ok,
        Outcome::Failed(s, e) => state == s && (r matches Err(x) && x@ == e),
        Outcome::Panics => false,
    }
}

/// The state a merge ending in `o` leaves, where it does not panic.
pub open spec fn outcome_state<T>(o: Outcome<T>, otherwise: T) -> T {
    match o {
        Outcome::Finished(s) => s,
        Outcome::Failed(s, _) => s,
        Outcome::Panics => otherwise,
    }
}

/// The outcome `o` with the node it leaves passed through `f`.
pub open spec fn lift<S, T>(o: Outcome<S>, f: spec_fn(S) -> T) -> Outcome<T> {
    match o {
        Outcome::Finished(s) => Outcome::Finished(f(s)),
        Outcome::Failed(s, e) => Outcome::Failed(f(s), e),
        Outcome::Panics => Outcome::Panics,
    }
}

} // verus!
