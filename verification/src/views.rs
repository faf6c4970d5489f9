//! Views of sequences, item by item.

use vstd::prelude::*;

verus! {

/// The items of `items`, each as what it holds.
pub open spec fn views<T: View>(items: Seq<T>) -> Seq<T::V> {
    Seq::new(items.len(), |i: int| items[i]@)
}

} // verus!
