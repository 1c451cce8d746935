//! Flattening the result of a register operation that ran under a timeout.

use vstd::prelude::*;

verus! {

/// `embassy_time::TimeoutError`, the error of an operation that timed out.
#[verifier::external_type_specification]
#[verifier::external_body]
pub struct ExTimeoutError(embassy_time::TimeoutError);

/// Why an operation under a timeout failed: it timed out, or it ended with an
/// error of its own.
#[derive(Debug)]
pub enum MyTimeoutError<E> {
    Timeout(embassy_time::TimeoutError),
    Error(E),
}

/// Turns the nested result of an operation under a timeout into one result.
pub fn conv_wtimeout_res<T, E>(res: Result<Result<T, E>, embassy_time::TimeoutError>) -> (r: Result<
    T,
    MyTimeoutError<E>,
>)
    ensures
        match res {
            Ok(Ok(v)) => r == Ok::<T, MyTimeoutError<E>>(v),
            Ok(Err(e)) => r == Err::<T, MyTimeoutError<E>>(MyTimeoutError::Error(e)),
            Err(t) => r == Err::<T, MyTimeoutError<E>>(MyTimeoutError::Timeout(t)),
        },
{
    match res {
        Ok(Ok(v)) => Ok(v),
        Ok(Err(e)) => Err(MyTimeoutError::Error(e)),
        Err(e) => Err(MyTimeoutError::Timeout(e)),
    }
}

} // verus!
