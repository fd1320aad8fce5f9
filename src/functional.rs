use crate::contribution::{contribution_list, select_contributions, FunctionalContribution};
use crate::fmt::FMTVersion;
use crate::options::SaftVRQMieOptions;
use crate::parameters::{
    copy_items, indices_in_range, is_identity, lemma_identity_subset_keeps_parameters, select,
    select_square, SaftVRQMieParameters,
};
use std::sync::Arc;
use vstd::prelude::*;

verus! {

/// The ideal-gas term of a functional.
pub enum IdealGas<I> {
    /// Joback correlation built from one record per component.
    Joback(Vec<I>),
    /// Default term for the given number of components, used where no
    /// ideal-gas records are given.
    Default(usize),
}

/// Shape of the monomer segments seen by the hard-sphere term.
#[derive(Clone, Copy, Debug, PartialEq, Eq, Structural)]
pub enum MonomerShape {
    /// Spherical segments, one per component of the given number.
    Spherical(usize),
}

impl<P: Copy, B: Copy, I: Copy> SaftVRQMieParameters<P, B, I> {
    /// The segments of the SAFT-VRQ Mie model are spheres, one per component.
    pub fn monomer_shape(&self) -> (r: MonomerShape)
        ensures
            r == MonomerShape::Spherical(self.n() as usize),
    {
        MonomerShape::Spherical(self.len())
    }
}

/// `ideal_gas` is the term that goes with `params`: the Joback correlation of
/// its ideal-gas records where it has them, otherwise the default term sized
/// to its number of components.
pub open spec fn ideal_gas_for<P: Copy, B: Copy, I: Copy>(
    ideal_gas: IdealGas<I>,
    params: SaftVRQMieParameters<P, B, I>,
) -> bool {
    match params.joback_records {
        Some(j) => ideal_gas matches IdealGas::Joback(r) && r@ == j@,
        None => ideal_gas matches IdealGas::Default(n) && n == params.n(),
    }
}

/// The ideal-gas term for a parameter set.
fn build_ideal_gas<P: Copy, B: Copy, I: Copy>(params: &SaftVRQMieParameters<P, B, I>) -> (r:
    IdealGas<I>)
    ensures
        ideal_gas_for(r, *params),
{
    match &params.joback_records {
        Some(j) => IdealGas::Joback(copy_items(j)),
        None => IdealGas::Default(params.len()),
    }
}

/// SAFT-VRQ Mie Helmholtz energy functional: a parameter set, the options it
/// was built with, and the contributions and ideal-gas term chosen for them.
pub struct SaftVRQMieFunctional<P, B, I> {
    pub parameters: Arc<SaftVRQMieParameters<P, B, I>>,
    fmt_version: FMTVersion,
    options: SaftVRQMieOptions,
    contributions: Vec<FunctionalContribution>,
    ideal_gas: IdealGas<I>,
}

impl<P: Copy, B: Copy, I: Copy> SaftVRQMieFunctional<P, B, I> {
    /// The parameter set.
    pub closed spec fn params(self) -> SaftVRQMieParameters<P, B, I> {
        *self.parameters
    }

    /// The formulation of the hard-sphere term.
    pub closed spec fn spec_fmt_version(self) -> FMTVersion {
        self.fmt_version
    }

    /// The options.
    pub closed spec fn spec_options(self) -> SaftVRQMieOptions {
        self.options
    }

    /// The contributions, in order.
    pub closed spec fn spec_contributions(self) -> Seq<FunctionalContribution> {
        self.contributions@
    }

    /// The ideal-gas term.
    pub closed spec fn spec_ideal_gas(self) -> IdealGas<I> {
        self.ideal_gas
    }

    /// The parameters and options are valid, and the contributions and the
    /// ideal-gas term are those chosen for them.
    pub open spec fn wf(self) -> bool {
        &&& self.params().wf()
        &&& self.spec_options().wf()
        &&& self.spec_contributions() == contribution_list(
            self.spec_fmt_version(),
            self.params().n(),
            self.spec_options().inc_nonadd_term,
        )
        &&& ideal_gas_for(self.spec_ideal_gas(), self.params())
    }

    /// `self` is the functional that `original` gives for the components
    /// `component_list`, in that order.
    pub open spec fn is_subset_of(self, original: Self, component_list: Seq<usize>) -> bool {
        &&& self.wf()
        &&& self.params().pure_records@ == select(original.params().pure_records@, component_list)
        &&& self.params().binary() == select_square(original.params().binary(), component_list)
        &&& (self.params().joback_records is Some <==> original.params().joback_records is Some)
        &&& (self.params().joback_records matches Some(j) ==> j@ == select(
            original.params().joback_records->Some_0@,
            component_list,
        ))
        &&& self.spec_fmt_version() == original.spec_fmt_version()
        &&& self.spec_options() == original.spec_options()
    }

    /// Functional with the White Bear formulation and default options.
    pub fn new(parameters: Arc<SaftVRQMieParameters<P, B, I>>) -> (r: Self)
        requires
            parameters.wf(),
        ensures
            r.wf(),
            r.params() == *parameters,
            r.spec_fmt_version() == FMTVersion::WhiteBear,
            r.spec_options() == SaftVRQMieOptions::spec_default(),
    {
        Self::with_options(parameters, FMTVersion::WhiteBear, SaftVRQMieOptions::default())
    }

    /// Functional with the given formulation of the hard-sphere term and
    /// default options.
    pub fn new_full(parameters: Arc<SaftVRQMieParameters<P, B, I>>, fmt_version: FMTVersion) -> (r:
        Self)
        requires
            parameters.wf(),
        ensures
            r.wf(),
            r.params() == *parameters,
            r.spec_fmt_version() == fmt_version,
            r.spec_options() == SaftVRQMieOptions::spec_default(),
    {
        Self::with_options(parameters, fmt_version, SaftVRQMieOptions::default())
    }

    /// Functional with the given formulation and options. For one component
    /// and a White Bear formulation it holds the specialised single-component
    /// terms; otherwise the general hard-sphere term, the non-additive
    /// correction where the options ask for it, and the general attractive
    /// term.
    pub fn with_options(
        parameters: Arc<SaftVRQMieParameters<P, B, I>>,
        fmt_version: FMTVersion,
        saft_options: SaftVRQMieOptions,
    ) -> (r: Self)
        requires
            parameters.wf(),
            saft_options.wf(),
        ensures
            r.wf(),
            r.params() == *parameters,
            r.spec_fmt_version() == fmt_version,
            r.spec_options() == saft_options,
            r.spec_contributions() == contribution_list(
                fmt_version,
                parameters.n(),
                saft_options.inc_nonadd_term,
            ),
            ideal_gas_for(r.spec_ideal_gas(), *parameters),
    {
        let contributions = select_contributions(
            fmt_version,
            parameters.len(),
            saft_options.inc_nonadd_term,
        );
        let ideal_gas = build_ideal_gas(&*parameters);
        SaftVRQMieFunctional {
            parameters,
            fmt_version,
            options: saft_options,
            contributions,
            ideal_gas,
        }
    }

    /// The functional of the components `component_list`, in that order,
    /// with the contributions chosen anew for them.
    pub fn subset(&self, component_list: &[usize]) -> (r: Self)
        requires
            self.wf(),
            indices_in_range(component_list@, self.params().n()),
        ensures
            r.is_subset_of(*self, component_list@),
            r.spec_contributions() == contribution_list(
                self.spec_fmt_version(),
                component_list@.len(),
                self.spec_options().inc_nonadd_term,
            ),
    {
        let parameters = Arc::new(self.parameters.subset(component_list));
        Self::with_options(parameters, self.fmt_version, self.options)
    }

    /// The contributions, in order.
    pub fn contributions(&self) -> (r: &[FunctionalContribution])
        ensures
            r@ == self.spec_contributions(),
    {
        self.contributions.as_slice()
    }

    /// The ideal-gas term.
    pub fn ideal_gas(&self) -> (r: &IdealGas<I>)
        ensures
            *r == self.spec_ideal_gas(),
    {
        &self.ideal_gas
    }

    /// The formulation of the hard-sphere term.
    pub fn fmt_version(&self) -> (r: FMTVersion)
        ensures
            r == self.spec_fmt_version(),
    {
        self.fmt_version
    }

    /// The options.
    pub fn options(&self) -> (r: SaftVRQMieOptions)
        ensures
            r == self.spec_options(),
    {
        self.options
    }
}

/// Restricting a functional to all of its components, in order, gives a
/// functional with the same parameters, formulation, options, contributions
/// and ideal-gas records.
pub proof fn lemma_identity_subset_keeps_functional<P: Copy, B: Copy, I: Copy>(
    f: SaftVRQMieFunctional<P, B, I>,
    component_list: Seq<usize>,
    g: SaftVRQMieFunctional<P, B, I>,
)
    requires
        f.wf(),
        is_identity(component_list, f.params().n()),
        g.is_subset_of(f, component_list),
    ensures
        g.params().pure_records@ == f.params().pure_records@,
        g.params().binary() == f.params().binary(),
        g.params().joback_records is Some <==> f.params().joback_records is Some,
        g.params().joback_records matches Some(j) ==> j@ == f.params().joback_records->Some_0@,
        g.spec_fmt_version() == f.spec_fmt_version(),
        g.spec_options() == f.spec_options(),
        g.spec_contributions() == f.spec_contributions(),
        g.spec_ideal_gas() matches IdealGas::Joback(r) ==> f.spec_ideal_gas() matches IdealGas::Joback(s) && r@ == s@,
        g.spec_ideal_gas() matches IdealGas::Default(n) ==> f.spec_ideal_gas() == IdealGas::<I>::Default(n),
{
    lemma_identity_subset_keeps_parameters(f.params(), component_list);
}

} // verus!
