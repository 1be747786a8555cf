//! A small combinator for chaining a computation off the unit value.

use vstd::prelude::*;

verus! {

/// Chain a computation after a unit value — `().chain(f)` runs `f`,
/// `().chain_some(v)` hands `v` straight back.
pub trait Chaining<T, R> where T: Fn() -> R {
    /// Run `f`.
    fn chain(&self, f: T) -> (r: R)
        requires
            call_requires(f, ()),
        ensures
            call_ensures(f, (), r),
    ;

    /// Hand `r` back unchanged.
    fn chain_some(&self, r: R) -> (res: R)
        ensures
            res == r,
    ;
}

impl<T, R> Chaining<T, R> for () where T: Fn() -> R {
    fn chain(&self, f: T) -> (r: R) {
        f()
    }

    fn chain_some(&self, r: R) -> (res: R) {
        r
    }
}

} // verus!
