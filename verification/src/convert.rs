//! A local conversion trait.

use vstd::prelude::*;

verus! {

/// A locally defined [`std::convert::Into`] surrogate to overcome orphan rules.
pub trait Convert<T>: Sized {
    /// Converts the value to `T`.
    fn convert(self) -> T;
}

} // verus!
