//! What only this crate may implement.

use vstd::prelude::*;

verus! {

/// Closes a public trait: a type outside this crate cannot name this trait,
/// and so cannot implement a trait that has it as a supertrait.
pub trait Sealed {

}

} // verus!
