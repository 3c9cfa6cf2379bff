//! Cover crop modes.

use vstd::prelude::*;

verus! {

/// How a cover is cropped into a poster, numbered as in the scrapers'
/// `imagecut` values.
#[derive(Debug, Clone, Copy, PartialEq, Eq, Structural)]
pub enum CropMode {
    /// Mode 0: copy the image without cropping.
    Copy,
    /// Mode 1: crop around the detected face.
    Smart,
    /// Mode 3: use the small cover.
    Small,
    /// Mode 4: face crop for censored covers.
    SmartCensored,
}

/// The mode a number selects; unknown numbers select `Copy`.
pub open spec fn crop_mode_of(value: i32) -> CropMode {
    if value == 1 {
        CropMode::Smart
    } else if value == 3 {
        CropMode::Small
    } else if value == 4 {
        CropMode::SmartCensored
    } else {
        CropMode::Copy
    }
}

/// The number of a mode.
pub open spec fn crop_mode_number(mode: CropMode) -> i32 {
    match mode {
        CropMode::Copy => 0,
        CropMode::Smart => 1,
        CropMode::Small => 3,
        CropMode::SmartCensored => 4,
    }
}

impl vstd::std_specs::convert::FromSpecImpl<i32> for CropMode {
    open spec fn obeys_from_spec() -> bool {
        true
    }

    open spec fn from_spec(v: i32) -> CropMode {
        crop_mode_of(v)
    }
}

impl From<i32> for CropMode {
    fn from(value: i32) -> (r: Self) {
        match value {
            0 => CropMode::Copy,
            1 => CropMode::Smart,
            3 => CropMode::Small,
            4 => CropMode::SmartCensored,
            _ => CropMode::Copy,
        }
    }
}

impl CropMode {
    /// The number of the mode (`0`, `1`, `3` or `4`).
    pub fn number(&self) -> (r: i32)
        ensures
            r == crop_mode_number(*self),
    {
        match self {
            CropMode::Copy => 0,
            CropMode::Smart => 1,
            CropMode::Small => 3,
            CropMode::SmartCensored => 4,
        }
    }
}

/// Every mode is selected by its own number.
pub proof fn lemma_crop_mode_round_trip(mode: CropMode)
    ensures
        crop_mode_of(crop_mode_number(mode)) == mode,
{
}

} // verus!
