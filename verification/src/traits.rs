//! The capabilities that key and value types bring.
//!
//! Keys and values cross the boundary as bytes, so every function of the
//! bridge that encodes or decodes a type asks for the codec's capabilities
//! beside these traits.

use vstd::prelude::*;

verus! {

/// A type that can serve as a key of the store.
pub trait FasterKey {
}

/// A type that can serve as a value of the store.
pub trait FasterValue {
}

/// A value type with a read-modify-write rule of its own.
pub trait FasterRmw: Sized {
    /// The value that merging `modification` into `self` gives. A type that
    /// states its rule overrides this. Stated or not, the rule is one fixed,
    /// total function of the two values.
    open spec fn merged(&self, modification: Self) -> Self {
        arbitrary()
    }

    /// Merges `modification` into the stored value and returns the new value.
    fn rmw(&self, modification: Self) -> (result: Self)
        ensures
            result == self.merged(modification),
    ;
}

} // verus!
