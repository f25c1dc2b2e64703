//! What a record needs in order to be kept in a store of records.

use vstd::prelude::*;

verus! {

/// A value that names itself: the key under which a store keeps it.
pub trait Unique {
    /// The key of this value.
    fn uuid(&self) -> String;
}

} // verus!
