//! What can go wrong between the widget and the brightness provider.
use vstd::prelude::*;

verus! {

/// Why readings of the brightness provider cannot be used.
#[derive(Clone, Copy, Debug, PartialEq, Eq, Structural)]
pub enum BrightnessError {
    /// The provider's output is not a decimal integer that fits in `u32`.
    MalformedOutput,
    /// The provider reports a maximum level of 0: there is no range to control.
    NoRange,
    /// The provider reports a current level above its maximum.
    LevelAboveMax,
}

} // verus!
