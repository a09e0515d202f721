//! Results of raw OS calls.
//!
//! Many OS entry points signal failure through an in-band value: a zero
//! return means the call failed and the real error must be fetched
//! separately. `WindowsResult` keeps the two outcomes apart; the caller
//! fetches the OS error value and hands it in, and the constructors below
//! pin down exactly when each variant comes back.

use vstd::prelude::*;

verus! {

/// Outcome of an OS call: the value it returned, or the error the caller
/// looked up after a failure return.
#[derive(Debug)]
pub enum WindowsResult<T, E> {
    Failure(E),
    Success(T),
}

impl<T, E> WindowsResult<T, E> {
    /// Hand the outcome over as a standard result, unchanged.
    pub fn into_result(self) -> (r: Result<T, E>)
        ensures
            (self matches WindowsResult::Success(t) ==> r == Result::<T, E>::Ok(t)),
            (self matches WindowsResult::Failure(e) ==> r == Result::<T, E>::Err(e)),
    {
        match self {
            WindowsResult::Success(t) => Ok(t),
            WindowsResult::Failure(e) => Err(e),
        }
    }
}

impl<E> WindowsResult<isize, E> {
    /// Read an OS return value under the zero-means-failure convention:
    /// zero becomes the error handed in, anything else is the value itself.
    pub fn from_return_value(value: isize, error: E) -> (r: WindowsResult<isize, E>)
        ensures
            value == 0 ==> r == WindowsResult::<isize, E>::Failure(error),
            value != 0 ==> r == WindowsResult::<isize, E>::Success(value),
    {
        if value == 0 {
            WindowsResult::Failure(error)
        } else {
            WindowsResult::Success(value)
        }
    }
}

impl<E> WindowsResult<u32, E> {
    /// Read an OS return value under the zero-means-failure convention.
    pub fn from_return_value_u32(value: u32, error: E) -> (r: WindowsResult<u32, E>)
        ensures
            value == 0 ==> r == WindowsResult::<u32, E>::Failure(error),
            value != 0 ==> r == WindowsResult::<u32, E>::Success(value),
    {
        if value == 0 {
            WindowsResult::Failure(error)
        } else {
            WindowsResult::Success(value)
        }
    }
}

impl<E> WindowsResult<i32, E> {
    /// Read an OS return value under the zero-means-failure convention.
    pub fn from_return_value_i32(value: i32, error: E) -> (r: WindowsResult<i32, E>)
        ensures
            value == 0 ==> r == WindowsResult::<i32, E>::Failure(error),
            value != 0 ==> r == WindowsResult::<i32, E>::Success(value),
    {
        if value == 0 {
            WindowsResult::Failure(error)
        } else {
            WindowsResult::Success(value)
        }
    }
}

} // verus!
