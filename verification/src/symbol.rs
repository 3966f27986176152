//! Instrument symbols packed into one machine word.

use vstd::prelude::*;
use vstd::string::StringSliceAdditionalSpecFns;
use crate::decode::{le_fold, le_value};

verus! {

/// Packs a symbol of at most eight bytes into a `u64`: byte `i` of the symbol
/// becomes byte `i` of the number, counted from the least significant end,
/// and the bytes the symbol does not reach stay zero.
///
/// Two symbols of equal length pack to the same number only if they are the
/// same bytes (see `lemma_le_value_injective`).
pub fn code_to_u64(str: &'static str) -> (code: u64)
    requires
        str.spec_bytes().len() <= 8,
    ensures
        code == le_value(str.spec_bytes()),
{
    le_fold(str.as_bytes())
}

} // verus!
