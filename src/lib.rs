//! Construction-time logic of the SAFT-VRQ Mie Helmholtz energy functional:
//! which contributions make up the functional, how options are validated,
//! how parameter sets are restricted to a subset of components, and which
//! ideal-gas term goes with them.

mod contribution;
mod fmt;
mod functional;
mod options;
mod parameters;

pub use contribution::{
    contribution_list, lemma_fast_path_ignores_non_additive_flag,
    lemma_non_additive_flag_adds_one_contribution, select_contributions, uses_pure_path,
    FunctionalContribution,
};
pub use fmt::FMTVersion;
pub use functional::{
    ideal_gas_for, lemma_identity_subset_keeps_functional, IdealGas, MonomerShape, SaftVRQMieFunctional,
};
pub use options::{FeynmanHibbsOrder, OptionsError, PackingFraction, SaftVRQMieOptions};
pub use parameters::{
    indices_in_range, is_identity, lemma_identity_subset_keeps_parameters, select, select_square, ParameterError,
    SaftVRQMieParameters,
};
