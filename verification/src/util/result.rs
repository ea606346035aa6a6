//! Looking at a result on its way through.

use vstd::prelude::*;

verus! {

/// Calls a function on the value or on the error of a result and hands the
/// result on unchanged.
pub trait ResultExt<T, E>: Sized {
    /// The result as a plain `Result`.
    spec fn as_result(self) -> Result<T, E>;

    /// Calls `on_ok_fn` on the value of a success, once, and hands the
    /// result on.
    fn on_ok<F: Fn(&T) -> ()>(self, on_ok_fn: F) -> (result: Result<T, E>)
        requires
            forall|value: &T| on_ok_fn.requires((value,)),
        ensures
            result == self.as_result(),
            self.as_result() matches Ok(value) ==> on_ok_fn.ensures((&value,), ()),
    ;

    /// Calls `on_err_fn` on the error of a failure, once, and hands the
    /// result on.
    fn on_err<F: Fn(&E) -> ()>(self, on_err_fn: F) -> (result: Result<T, E>)
        requires
            forall|error: &E| on_err_fn.requires((error,)),
        ensures
            result == self.as_result(),
            self.as_result() matches Err(error) ==> on_err_fn.ensures((&error,), ()),
    ;
}

impl<T, E> ResultExt<T, E> for Result<T, E> {
    open spec fn as_result(self) -> Result<T, E> {
        self
    }

    fn on_ok<F: Fn(&T) -> ()>(self, on_ok_fn: F) -> (result: Result<T, E>) {
        match self {
            Ok(value) => {
                on_ok_fn(&value);
                Ok(value)
            },
            Err(error) => Err(error),
        }
    }

    fn on_err<F: Fn(&E) -> ()>(self, on_err_fn: F) -> (result: Result<T, E>) {
        match self {
            Ok(value) => Ok(value),
            Err(error) => {
                on_err_fn(&error);
                Err(error)
            },
        }
    }
}

} // verus!
