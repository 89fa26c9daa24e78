use vstd::prelude::*;

verus! {

/// An optional value was absent.
#[derive(Clone, Copy, PartialEq, Eq, Structural, Debug)]
pub struct NoneError;

pub trait OptionExt {
    type Out;

    spec fn into_result_spec(self) -> Result<Self::Out, NoneError>;

    fn into_result(self) -> (r: Result<Self::Out, NoneError>)
        ensures
            r == self.into_result_spec(),
    ;
}

impl<T> OptionExt for Option<T> {
    type Out = T;

    open spec fn into_result_spec(self) -> Result<T, NoneError> {
        match self {
            Some(x) => Ok(x),
            None => Err(NoneError),
        }
    }

    fn into_result(self) -> (r: Result<T, NoneError>) {
        match self {
            Some(x) => Ok(x),
            None => Err(NoneError),
        }
    }
}

} // verus!
