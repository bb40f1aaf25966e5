//! The matrix families that are told apart without arithmetic on samples.

use crate::options::MatrixFormat;
use vstd::prelude::*;

verus! {

/// The SQ matrix, which steers by phase alone.
#[derive(Debug, Clone, Copy, PartialEq, Eq, Structural)]
pub struct SQMatrix {}

impl SQMatrix {
    pub fn sq() -> (matrix: SQMatrix)
        ensures
            matrix == (SQMatrix {  }),
    {
        SQMatrix {  }
    }

    /// An SQ source is steered between right and left as well as between
    /// front and back.
    pub fn steer_right_left(&self) -> (steers: bool)
        ensures
            steers,
    {
        true
    }
}

/// The sets of constants that a matrix works with: widening, rear phase
/// shifts and level trims.
#[derive(Debug, Clone, Copy, PartialEq, Eq, Structural)]
pub enum MatrixProfile {
    Default,
    QS,
    HorseShoe,
    /// Dolby with the fronts and the low-frequency channel lowered.
    DolbySafe,
    /// Dolby with the centre and the rears raised.
    DolbyLoud,
    SQ,
}

/// The profile that a source in `format` is decoded with. The regular
/// matrix is the QS matrix under its standard's name, and Dolby is decoded
/// with the profile that cannot clip.
pub open spec fn profile_of(format: MatrixFormat) -> MatrixProfile {
    match format {
        MatrixFormat::Default => MatrixProfile::Default,
        MatrixFormat::QS => MatrixProfile::QS,
        MatrixFormat::RM => MatrixProfile::QS,
        MatrixFormat::HorseShoe => MatrixProfile::HorseShoe,
        MatrixFormat::Dolby => MatrixProfile::DolbySafe,
        MatrixFormat::SQ => MatrixProfile::SQ,
    }
}

/// The profile that a source in `format` is decoded with.
pub fn matrix_profile(format: MatrixFormat) -> (profile: MatrixProfile)
    ensures
        profile == profile_of(format),
{
    match format {
        MatrixFormat::Default => MatrixProfile::Default,
        MatrixFormat::QS => MatrixProfile::QS,
        MatrixFormat::RM => MatrixProfile::QS,
        MatrixFormat::HorseShoe => MatrixProfile::HorseShoe,
        MatrixFormat::Dolby => MatrixProfile::DolbySafe,
        MatrixFormat::SQ => MatrixProfile::SQ,
    }
}

/// Whether a source in `format` is steered between right and left by its
/// phase: only SQ is.
pub fn steers_right_left(format: MatrixFormat) -> (steers: bool)
    ensures
        steers == (format is SQ),
{
    match format {
        MatrixFormat::SQ => SQMatrix::sq().steer_right_left(),
        _ => false,
    }
}

} // verus!
