//! The ways in which a request to the library can fail.

use vstd::prelude::*;

verus! {

/// Why a request was turned down.
#[derive(Clone, Copy, Debug, PartialEq, Eq, Hash, Structural)]
pub enum TheoryError {
    /// No tuning is defined for this family of instrument in this style of
    /// tuning with this number of strings.
    UnsupportedInstrumentConfiguration,
    /// No key, scale, chord or tuning has this name.
    UnknownCatalogName,
    /// The fretboard has no such string or no such fret.
    IndexOutOfRange,
}

} // verus!
