use vstd::prelude::*;

verus! {

/// Formulation of fundamental measure theory used for the hard-sphere term.
#[derive(Clone, Copy, Debug, PartialEq, Eq, Structural)]
pub enum FMTVersion {
    /// White Bear version.
    WhiteBear,
    /// Kierlik-Rosinberg version with scalar weight functions only.
    KierlikRosinberg,
    /// White Bear version with anti-symmetrized vector weighted densities.
    AntiSymWhiteBear,
}

impl FMTVersion {
    /// Holds of the two White Bear formulations.
    pub open spec fn spec_is_white_bear(self) -> bool {
        self is WhiteBear || self is AntiSymWhiteBear
    }

    /// Tells whether this is one of the two White Bear formulations.
    pub fn is_white_bear(&self) -> (r: bool)
        ensures
            r == self.spec_is_white_bear(),
    {
        match self {
            FMTVersion::WhiteBear => true,
            FMTVersion::KierlikRosinberg => false,
            FMTVersion::AntiSymWhiteBear => true,
        }
    }
}

} // verus!
