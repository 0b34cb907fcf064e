//! The marker that keeps the set of classifiable types closed.

use vstd::prelude::*;

verus! {

/// Marks the types that can be tested against a character set. It is
/// implemented for `char` and for the result of a lookup, and for nothing
/// else.
pub trait Seal {

}

} // verus!
