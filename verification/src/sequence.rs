//! Items decoded one after another from a buffer.

use vstd::prelude::*;

verus! {

/// The items already decoded, followed by the outcome of decoding the rest:
/// the first error met, or all the items in order.
pub open spec fn prepend<T, E>(head: Seq<T>, tail: Result<Seq<T>, E>) -> Result<Seq<T>, E> {
    match tail {
        Ok(items) => Ok(head + items),
        Err(error) => Err(error),
    }
}

} // verus!
