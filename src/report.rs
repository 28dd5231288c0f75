//! The one-line brightness report of the command line.
use vstd::prelude::*;

use crate::error::BrightnessError;
use crate::percent::scaled_percentage;
use crate::state::Options;
use crate::text::{percent_chars, percentage_text};

verus! {

/// Whether the readings are taken to mean that no brightness control is present.
pub open spec fn reads_as_absent(max: u32, options: Options) -> bool {
    options.single_level_means_absent && max == 1
}

/// The report for a current level of `current` out of `max`: the percentage
/// with its `%` sign, or nothing where no brightness control is present.
pub fn info_report(current: u32, max: u32, options: Options) -> (r: Result<
    Option<String>,
    BrightnessError,
>)
    ensures
        reads_as_absent(max, options) ==> r == Ok::<Option<String>, BrightnessError>(None),
        !reads_as_absent(max, options) && max == 0 ==> r == Err::<Option<String>, BrightnessError>(
            BrightnessError::NoRange,
        ),
        !reads_as_absent(max, options) && 0 < max < current ==> r == Err::<
            Option<String>,
            BrightnessError,
        >(BrightnessError::LevelAboveMax),
        !reads_as_absent(max, options) && 0 < max && current <= max ==> (r matches Ok(Some(t))
            && t@ == percent_chars(
            scaled_percentage(current as nat, max as nat, options.precision),
            options.precision,
        )),
{
    if options.single_level_means_absent && max == 1 {
        Ok(None)
    } else if max == 0 {
        Err(BrightnessError::NoRange)
    } else if current > max {
        Err(BrightnessError::LevelAboveMax)
    } else {
        Ok(Some(percentage_text(current, max, options.precision)))
    }
}

} // verus!
