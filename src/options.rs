use vstd::prelude::*;

verus! {

/// Order of the Feynman-Hibbs correction of the Mie potential.
#[derive(Clone, Copy, Debug, PartialEq, Eq, Structural)]
pub enum FeynmanHibbsOrder {
    /// No quantum correction.
    FH0,
    /// First-order correction.
    FH1,
    /// Second-order correction.
    FH2,
}

/// Reasons for which options are refused.
#[derive(Clone, Copy, Debug, PartialEq, Eq, Structural)]
pub enum OptionsError {
    /// The maximum packing fraction is not in the interval (0, 1].
    PackingFractionOutOfRange,
}

/// A packing fraction held as an exact ratio of two integers.
#[derive(Clone, Copy, Debug, PartialEq, Eq, Structural)]
pub struct PackingFraction {
    pub numerator: u64,
    pub denominator: u64,
}

impl PackingFraction {
    /// A packing fraction lies in (0, 1].
    pub open spec fn wf(self) -> bool {
        0 < self.numerator && self.numerator <= self.denominator
    }

    /// The ratio `numerator / denominator`, refused outside (0, 1].
    pub fn new(numerator: u64, denominator: u64) -> (r: Result<PackingFraction, OptionsError>)
        ensures
            r is Ok <==> 0 < numerator && numerator <= denominator,
            r matches Ok(p) ==> p.numerator == numerator && p.denominator == denominator,
            r matches Err(e) ==> e == OptionsError::PackingFractionOutOfRange,
    {
        if 0 < numerator && numerator <= denominator {
            Ok(PackingFraction { numerator, denominator })
        } else {
            Err(OptionsError::PackingFractionOutOfRange)
        }
    }
}

/// Options of the SAFT-VRQ Mie functional.
#[derive(Clone, Copy, Debug, PartialEq, Eq, Structural)]
pub struct SaftVRQMieOptions {
    /// Largest packing fraction a bulk density may reach.
    pub max_eta: PackingFraction,
    /// Order of the quantum correction.
    pub fh_order: FeynmanHibbsOrder,
    /// Whether mixtures get the non-additive hard-sphere correction.
    pub inc_nonadd_term: bool,
}

impl SaftVRQMieOptions {
    pub open spec fn wf(self) -> bool {
        self.max_eta.wf()
    }

    /// The default options: a maximum packing fraction of one half,
    /// first-order quantum correction, and the non-additive term switched on.
    pub open spec fn spec_default() -> SaftVRQMieOptions {
        SaftVRQMieOptions {
            max_eta: PackingFraction { numerator: 1, denominator: 2 },
            fh_order: FeynmanHibbsOrder::FH1,
            inc_nonadd_term: true,
        }
    }

    /// Options from their parts, refused where the packing fraction is not in (0, 1].
    pub fn new(
        max_eta_numerator: u64,
        max_eta_denominator: u64,
        fh_order: FeynmanHibbsOrder,
        inc_nonadd_term: bool,
    ) -> (r: Result<SaftVRQMieOptions, OptionsError>)
        ensures
            r is Ok <==> 0 < max_eta_numerator && max_eta_numerator <= max_eta_denominator,
            r matches Ok(o) ==> o.wf() && o.max_eta.numerator == max_eta_numerator
                && o.max_eta.denominator == max_eta_denominator && o.fh_order == fh_order
                && o.inc_nonadd_term == inc_nonadd_term,
            r matches Err(e) ==> e == OptionsError::PackingFractionOutOfRange,
    {
        match PackingFraction::new(max_eta_numerator, max_eta_denominator) {
            Ok(max_eta) => Ok(SaftVRQMieOptions { max_eta, fh_order, inc_nonadd_term }),
            Err(e) => Err(e),
        }
    }
}

impl Default for SaftVRQMieOptions {
    /// A maximum packing fraction of one half, first-order quantum
    /// correction, and the non-additive term switched on.
    fn default() -> (r: SaftVRQMieOptions)
        ensures
            r == SaftVRQMieOptions::spec_default(),
    {
        SaftVRQMieOptions {
            max_eta: PackingFraction { numerator: 1, denominator: 2 },
            fh_order: FeynmanHibbsOrder::FH1,
            inc_nonadd_term: true,
        }
    }
}

} // verus!
