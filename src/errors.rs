use vstd::prelude::*;

verus! {

/// A foreign coded value lies outside the valid range of its domain.
#[derive(Debug, Clone, Copy, PartialEq, Eq, Hash)]
pub struct ConversionError;

} // verus!
