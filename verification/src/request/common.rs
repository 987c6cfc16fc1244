//! The two shapes in which the site's API answers.

use vstd::prelude::*;

verus! {

/// An API answer that holds either `data` or `error`.
#[derive(Debug, Clone, PartialEq, Eq)]
pub enum CommonResponseBody<D, E> {
    Data(D),
    Error(E),
}

impl<D, E> CommonResponseBody<D, E> {
    /// `Ok` with the data, or `Err` with the error.
    pub fn into_result(self) -> (r: Result<D, E>)
        ensures
            match self {
                CommonResponseBody::Data(d) => r == Ok::<D, E>(d),
                CommonResponseBody::Error(e) => r == Err::<D, E>(e),
            },
    {
        match self {
            CommonResponseBody::Data(data) => Ok(data),
            CommonResponseBody::Error(error) => Err(error),
        }
    }
}

/// An API answer that is either the data itself or an object with an `error`.
#[derive(Debug, Clone, PartialEq, Eq)]
pub enum DirectDataResponseBody<D, E> {
    Data(D),
    Error { error: E },
}

impl<D, E> DirectDataResponseBody<D, E> {
    /// `Ok` with the data, or `Err` with the error.
    pub fn into_result(self) -> (r: Result<D, E>)
        ensures
            match self {
                DirectDataResponseBody::Data(d) => r == Ok::<D, E>(d),
                DirectDataResponseBody::Error { error } => r == Err::<D, E>(error),
            },
    {
        match self {
            DirectDataResponseBody::Data(data) => Ok(data),
            DirectDataResponseBody::Error { error } => Err(error),
        }
    }
}

} // verus!
