use vstd::prelude::*;

verus! {

/// The kinds of transport failure that the pipeline tells apart.
#[derive(Clone, Copy, PartialEq, Eq, Structural, Debug)]
pub enum ErrorKind {
    ConnectionRefused,
    ConnectionAborted,
    ConnectionReset,
    /// Any other failure.
    Other,
}

/// What a failed accept says about: the one connection, or the listener itself.
#[derive(Clone, Copy, PartialEq, Eq, Structural, Debug)]
pub enum AppliesTo {
    Connection,
    Listener,
}

/// Refused, aborted and reset connections concern one connection only;
/// every other failure concerns the listener.
pub open spec fn scope_of(kind: ErrorKind) -> AppliesTo {
    match kind {
        ErrorKind::ConnectionRefused | ErrorKind::ConnectionAborted
        | ErrorKind::ConnectionReset => AppliesTo::Connection,
        ErrorKind::Other => AppliesTo::Listener,
    }
}

pub trait IoErrorExt {
    spec fn applies_to_spec(&self) -> AppliesTo;

    fn applies_to(&self) -> (r: AppliesTo)
        ensures
            r == self.applies_to_spec(),
    ;
}

impl IoErrorExt for ErrorKind {
    open spec fn applies_to_spec(&self) -> AppliesTo {
        scope_of(*self)
    }

    fn applies_to(&self) -> (r: AppliesTo) {
        match self {
            ErrorKind::ConnectionRefused | ErrorKind::ConnectionAborted
            | ErrorKind::ConnectionReset => AppliesTo::Connection,
            ErrorKind::Other => AppliesTo::Listener,
        }
    }
}

} // verus!
