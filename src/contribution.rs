use crate::fmt::FMTVersion;
use vstd::prelude::*;

verus! {

/// One additive term of the residual Helmholtz energy functional.
#[derive(Clone, Copy, Debug, PartialEq, Eq, Structural)]
pub enum FunctionalContribution {
    /// Hard-sphere and association term specialised to a single component.
    PureFMTAssoc(FMTVersion),
    /// Attractive term specialised to a single component.
    PureAttractive,
    /// General fundamental measure theory hard-sphere term.
    HardSphere(FMTVersion),
    /// Correction for the non-additivity of the hard-sphere diameters in mixtures.
    NonAdditiveHardSphere,
    /// General attractive (dispersion) term.
    Attractive,
}

/// The specialised single-component terms are used exactly for one component
/// with a White Bear formulation.
pub open spec fn uses_pure_path(fmt_version: FMTVersion, n_components: nat) -> bool {
    fmt_version.spec_is_white_bear() && n_components == 1
}

/// The ordered contributions of a functional for `n_components` components.
pub open spec fn contribution_list(
    fmt_version: FMTVersion,
    n_components: nat,
    inc_nonadd_term: bool,
) -> Seq<FunctionalContribution> {
    if uses_pure_path(fmt_version, n_components) {
        seq![
            FunctionalContribution::PureFMTAssoc(fmt_version),
            FunctionalContribution::PureAttractive,
        ]
    } else if inc_nonadd_term {
        seq![
            FunctionalContribution::HardSphere(fmt_version),
            FunctionalContribution::NonAdditiveHardSphere,
            FunctionalContribution::Attractive,
        ]
    } else {
        seq![FunctionalContribution::HardSphere(fmt_version), FunctionalContribution::Attractive]
    }
}

/// Assembles the contributions of the functional: the specialised
/// single-component terms for one component with a White Bear formulation,
/// otherwise the general hard-sphere term, the non-additive correction if it
/// is asked for, and the general attractive term.
pub fn select_contributions(
    fmt_version: FMTVersion,
    n_components: usize,
    inc_nonadd_term: bool,
) -> (r: Vec<FunctionalContribution>)
    ensures
        r@ == contribution_list(fmt_version, n_components as nat, inc_nonadd_term),
{
    let mut contributions: Vec<FunctionalContribution> = Vec::with_capacity(3);
    if fmt_version.is_white_bear() && n_components == 1 {
        contributions.push(FunctionalContribution::PureFMTAssoc(fmt_version));
        contributions.push(FunctionalContribution::PureAttractive);
    } else {
        contributions.push(FunctionalContribution::HardSphere(fmt_version));
        if inc_nonadd_term {
            contributions.push(FunctionalContribution::NonAdditiveHardSphere);
        }
        contributions.push(FunctionalContribution::Attractive);
    }
    assert(contributions@ =~= contribution_list(fmt_version, n_components as nat, inc_nonadd_term));
    contributions
}

/// Outside the single-component path, switching the non-additive correction
/// on inserts exactly that one term, right after the hard-sphere term, and
/// leaves the rest of the list as it was.
pub proof fn lemma_non_additive_flag_adds_one_contribution(fmt_version: FMTVersion, n_components: nat)
    requires
        !uses_pure_path(fmt_version, n_components),
    ensures
        contribution_list(fmt_version, n_components, true) == contribution_list(
            fmt_version,
            n_components,
            false,
        ).insert(1, FunctionalContribution::NonAdditiveHardSphere),
        contribution_list(fmt_version, n_components, true).len() == contribution_list(
            fmt_version,
            n_components,
            false,
        ).len() + 1,
        !contribution_list(fmt_version, n_components, false).contains(
            FunctionalContribution::NonAdditiveHardSphere,
        ),
{
    let with = contribution_list(fmt_version, n_components, true);
    let without = contribution_list(fmt_version, n_components, false);
    assert(with =~= without.insert(1, FunctionalContribution::NonAdditiveHardSphere));
    assert(without[0] != FunctionalContribution::NonAdditiveHardSphere);
    assert(without[1] != FunctionalContribution::NonAdditiveHardSphere);
}

/// On the single-component path the non-additive flag has no effect.
pub proof fn lemma_fast_path_ignores_non_additive_flag(fmt_version: FMTVersion)
    requires
        fmt_version.spec_is_white_bear(),
    ensures
        contribution_list(fmt_version, 1, true) == contribution_list(fmt_version, 1, false),
{
}

} // verus!
