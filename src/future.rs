use vstd::prelude::*;

verus! {

/// What trying a list of alternatives in order does next, after the first
/// `tried` of `total` alternatives have all failed.
#[derive(Clone, Copy, PartialEq, Eq, Structural, Debug)]
pub enum SelectStep {
    /// Try the alternative with this index.
    Try(usize),
    /// Every alternative failed: report the last failure.
    LastError,
    /// There was no alternative at all: report that nothing was available.
    NoAlternatives,
}

/// Tries alternatives in order until one succeeds: the first success is the
/// result, else the last failure, or a failure of its own for an empty list.
pub fn select_step(tried: usize, total: usize) -> (r: SelectStep)
    requires
        tried <= total,
    ensures
        r == if tried < total {
            SelectStep::Try(tried)
        } else if total > 0 {
            SelectStep::LastError
        } else {
            SelectStep::NoAlternatives
        },
{
    if tried < total {
        SelectStep::Try(tried)
    } else if total > 0 {
        SelectStep::LastError
    } else {
        SelectStep::NoAlternatives
    }
}

} // verus!
