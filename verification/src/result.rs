//! Extensions to the [`Result`] type.

use vstd::prelude::*;

verus! {

/// Extension trait for [`Result`] types.
pub trait ResultExt<T, E>: Sized {
    /// The success value carried, where there is one.
    spec fn ok_view(&self) -> Option<T>;

    /// The error value carried, where there is one.
    spec fn err_view(&self) -> Option<E>;

    /// Exactly one of the two sides is carried.
    proof fn view_exclusive(&self)
        ensures
            self.ok_view() is Some <==> self.err_view() is None,
    ;

    /// Discards the specific error value, keeping only that there was one.
    ///
    /// Useful when an error is to be noted but its type does not matter.
    fn ignore_err(self) -> (r: Result<T, ()>)
        ensures
            self.ok_view() matches Some(t) ==> r == Result::<T, ()>::Ok(t),
            self.ok_view() is None ==> r == Result::<T, ()>::Err(()),
    ;

    /// Converts both the success and the error value to one common type,
    /// using the provided closures.
    ///
    /// A more ergonomic form of mapping both sides to the same type.
    fn map_both<U, F, G>(self, ok_fn: F, err_fn: G) -> (r: U) where
        F: FnOnce(T) -> U,
        G: FnOnce(E) -> U,

        requires
            self.ok_view() matches Some(t) ==> call_requires(ok_fn, (t,)),
            self.err_view() matches Some(e) ==> call_requires(err_fn, (e,)),
        ensures
            self.ok_view() matches Some(t) ==> call_ensures(ok_fn, (t,), r),
            self.err_view() matches Some(e) ==> call_ensures(err_fn, (e,), r),
    ;
}

impl<T, E> ResultExt<T, E> for Result<T, E> {
    open spec fn ok_view(&self) -> Option<T> {
        match *self {
            Ok(t) => Some(t),
            Err(_) => None,
        }
    }

    open spec fn err_view(&self) -> Option<E> {
        match *self {
            Ok(_) => None,
            Err(e) => Some(e),
        }
    }

    proof fn view_exclusive(&self) {
    }

    fn ignore_err(self) -> (r: Result<T, ()>) {
        match self {
            Ok(t) => Ok(t),
            Err(_) => Err(()),
        }
    }

    fn map_both<U, F, G>(self, ok_fn: F, err_fn: G) -> (r: U) where
        F: FnOnce(T) -> U,
        G: FnOnce(E) -> U,
    {
        match self {
            Ok(t) => ok_fn(t),
            Err(e) => err_fn(e),
        }
    }
}

} // verus!
