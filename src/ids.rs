use vstd::prelude::*;

verus! {

/// A stable identifier of a remote account.
#[derive(Clone, Copy, Debug, PartialEq, Eq, Structural, Hash)]
pub struct UserId(pub u64);

} // verus!
