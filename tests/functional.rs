use saftvrqmie::{
    select_contributions, FMTVersion, FeynmanHibbsOrder, FunctionalContribution, IdealGas,
    MonomerShape, OptionsError, PackingFraction, ParameterError, SaftVRQMieFunctional,
    SaftVRQMieOptions, SaftVRQMieParameters,
};
use std::sync::Arc;

#[derive(Clone, Copy, Debug, PartialEq)]
struct Pure {
    m: f64,
    sigma: f64,
    epsilon_k: f64,
}

type Params = SaftVRQMieParameters<Pure, f64, u32>;

fn pure(sigma: f64, epsilon_k: f64) -> Pure {
    Pure { m: 1.0, sigma, epsilon_k }
}

fn three_components(with_joback: bool) -> Params {
    let records = vec![pure(3.7, 150.0), pure(2.9, 20.0), pure(3.3, 90.0)];
    let binary = vec![
        vec![0.0, 0.1, 0.2],
        vec![1.0, 1.1, 1.2],
        vec![2.0, 2.1, 2.2],
    ];
    let joback = if with_joback { Some(vec![10, 11, 12]) } else { None };
    SaftVRQMieParameters::new(records, binary, joback).unwrap()
}

fn two_components() -> Params {
    let records = vec![pure(2.9, 20.0), pure(3.3, 90.0)];
    SaftVRQMieParameters::new(records, vec![vec![0.0, 0.5], vec![0.5, 0.0]], None).unwrap()
}

fn one_component() -> Params {
    SaftVRQMieParameters::new(vec![pure(3.7, 150.0)], vec![vec![0.0]], None).unwrap()
}

fn options(inc_nonadd_term: bool) -> SaftVRQMieOptions {
    SaftVRQMieOptions::new(1, 2, FeynmanHibbsOrder::FH1, inc_nonadd_term).unwrap()
}

#[test]
fn single_component_white_bear_uses_pure_terms() {
    for version in [FMTVersion::WhiteBear, FMTVersion::AntiSymWhiteBear] {
        for inc in [false, true] {
            assert_eq!(
                select_contributions(version, 1, inc),
                vec![
                    FunctionalContribution::PureFMTAssoc(version),
                    FunctionalContribution::PureAttractive
                ]
            );
        }
    }
}

#[test]
fn single_component_kierlik_rosinberg_uses_general_terms() {
    let v = FMTVersion::KierlikRosinberg;
    assert_eq!(
        select_contributions(v, 1, false),
        vec![FunctionalContribution::HardSphere(v), FunctionalContribution::Attractive]
    );
    assert_eq!(
        select_contributions(v, 1, true),
        vec![
            FunctionalContribution::HardSphere(v),
            FunctionalContribution::NonAdditiveHardSphere,
            FunctionalContribution::Attractive
        ]
    );
}

#[test]
fn non_additive_flag_adds_exactly_one_contribution() {
    let params = Arc::new(two_components());
    let without = SaftVRQMieFunctional::with_options(
        params.clone(),
        FMTVersion::WhiteBear,
        options(false),
    );
    let with = SaftVRQMieFunctional::with_options(params, FMTVersion::WhiteBear, options(true));
    assert_eq!(
        without.contributions(),
        &[
            FunctionalContribution::HardSphere(FMTVersion::WhiteBear),
            FunctionalContribution::Attractive
        ]
    );
    assert_eq!(
        with.contributions(),
        &[
            FunctionalContribution::HardSphere(FMTVersion::WhiteBear),
            FunctionalContribution::NonAdditiveHardSphere,
            FunctionalContribution::Attractive
        ]
    );
    assert_eq!(with.contributions().len(), without.contributions().len() + 1);
}

#[test]
fn default_constructor_uses_white_bear_and_default_options() {
    let f = SaftVRQMieFunctional::new(Arc::new(two_components()));
    assert_eq!(f.fmt_version(), FMTVersion::WhiteBear);
    assert_eq!(f.options(), SaftVRQMieOptions::default());
    assert_eq!(f.contributions().len(), 3);
    let f = SaftVRQMieFunctional::new(Arc::new(one_component()));
    assert_eq!(
        f.contributions(),
        &[
            FunctionalContribution::PureFMTAssoc(FMTVersion::WhiteBear),
            FunctionalContribution::PureAttractive
        ]
    );
}

#[test]
fn new_full_keeps_version() {
    let f = SaftVRQMieFunctional::new_full(Arc::new(one_component()), FMTVersion::KierlikRosinberg);
    assert_eq!(f.fmt_version(), FMTVersion::KierlikRosinberg);
    assert_eq!(
        f.contributions(),
        &[
            FunctionalContribution::HardSphere(FMTVersion::KierlikRosinberg),
            FunctionalContribution::NonAdditiveHardSphere,
            FunctionalContribution::Attractive
        ]
    );
}

#[test]
fn default_options() {
    let o = SaftVRQMieOptions::default();
    assert_eq!(o.max_eta, PackingFraction { numerator: 1, denominator: 2 });
    assert_eq!(o.fh_order, FeynmanHibbsOrder::FH1);
    assert!(o.inc_nonadd_term);
}

#[test]
fn packing_fraction_range() {
    assert_eq!(
        PackingFraction::new(0, 2),
        Err(OptionsError::PackingFractionOutOfRange)
    );
    assert_eq!(
        PackingFraction::new(3, 2),
        Err(OptionsError::PackingFractionOutOfRange)
    );
    assert_eq!(
        PackingFraction::new(2, 2),
        Ok(PackingFraction { numerator: 2, denominator: 2 })
    );
    assert_eq!(
        SaftVRQMieOptions::new(1, 0, FeynmanHibbsOrder::FH0, true),
        Err(OptionsError::PackingFractionOutOfRange)
    );
    let o = SaftVRQMieOptions::new(45, 100, FeynmanHibbsOrder::FH2, false).unwrap();
    assert_eq!(o.max_eta.numerator, 45);
    assert_eq!(o.max_eta.denominator, 100);
    assert_eq!(o.fh_order, FeynmanHibbsOrder::FH2);
    assert!(!o.inc_nonadd_term);
}

#[test]
fn parameter_shape_errors() {
    let records = vec![pure(3.7, 150.0), pure(2.9, 20.0)];
    let r: Result<Params, _> =
        SaftVRQMieParameters::new(records.clone(), vec![vec![0.0, 0.0]], None);
    assert_eq!(r.err(), Some(ParameterError::BinaryRecordsShape));
    let r: Result<Params, _> =
        SaftVRQMieParameters::new(records.clone(), vec![vec![0.0, 0.0], vec![0.0]], Some(vec![1]));
    assert_eq!(r.err(), Some(ParameterError::BinaryRecordsShape));
    let r: Result<Params, _> = SaftVRQMieParameters::new(
        records.clone(),
        vec![vec![0.0, 0.0], vec![0.0, 0.0]],
        Some(vec![1]),
    );
    assert_eq!(r.err(), Some(ParameterError::IdealGasRecordsLength));
    let r: Result<Params, _> = SaftVRQMieParameters::new(
        records,
        vec![vec![0.0, 0.0], vec![0.0, 0.0]],
        Some(vec![1, 2]),
    );
    assert_eq!(r.map(|p| p.len()), Ok(2));
}

#[test]
fn parameter_subset_reorders_all_records() {
    let p = three_components(true);
    let s = p.subset(&[2, 0]);
    assert_eq!(s.len(), 2);
    assert_eq!(s.pure_records, vec![pure(3.3, 90.0), pure(3.7, 150.0)]);
    assert_eq!(s.binary_records, vec![vec![2.2, 2.0], vec![0.2, 0.0]]);
    assert_eq!(s.joback_records, Some(vec![12, 10]));
    assert_eq!(p.len(), 3);
}

#[test]
fn identity_subset_reproduces_functional() {
    for with_joback in [false, true] {
        let f = SaftVRQMieFunctional::new(Arc::new(three_components(with_joback)));
        let g = f.subset(&[0, 1, 2]);
        assert_eq!(g.parameters.pure_records, f.parameters.pure_records);
        assert_eq!(g.parameters.binary_records, f.parameters.binary_records);
        assert_eq!(g.parameters.joback_records, f.parameters.joback_records);
        assert_eq!(g.contributions(), f.contributions());
        assert_eq!(g.options(), f.options());
        assert_eq!(g.fmt_version(), f.fmt_version());
    }
}

#[test]
fn subset_to_one_component_switches_to_pure_terms() {
    let f = SaftVRQMieFunctional::new(Arc::new(three_components(false)));
    assert_eq!(f.contributions().len(), 3);
    let g = f.subset(&[1]);
    assert_eq!(
        g.contributions(),
        &[
            FunctionalContribution::PureFMTAssoc(FMTVersion::WhiteBear),
            FunctionalContribution::PureAttractive
        ]
    );
    assert_eq!(g.parameters.pure_records, vec![pure(2.9, 20.0)]);
    assert!(matches!(g.ideal_gas(), IdealGas::Default(1)));
}

#[test]
fn ideal_gas_follows_records() {
    let f = SaftVRQMieFunctional::new(Arc::new(three_components(true)));
    match f.ideal_gas() {
        IdealGas::Joback(r) => assert_eq!(r, &vec![10, 11, 12]),
        IdealGas::Default(_) => panic!("expected the Joback term"),
    }
    let g = f.subset(&[2, 1]);
    match g.ideal_gas() {
        IdealGas::Joback(r) => assert_eq!(r, &vec![12, 11]),
        IdealGas::Default(_) => panic!("expected the Joback term"),
    }
    let f = SaftVRQMieFunctional::new(Arc::new(three_components(false)));
    assert!(matches!(f.ideal_gas(), IdealGas::Default(3)));
}

#[test]
fn monomer_shape_is_spherical() {
    assert_eq!(three_components(false).monomer_shape(), MonomerShape::Spherical(3));
    assert_eq!(one_component().monomer_shape(), MonomerShape::Spherical(1));
}

#[test]
fn version_is_white_bear() {
    assert!(FMTVersion::WhiteBear.is_white_bear());
    assert!(FMTVersion::AntiSymWhiteBear.is_white_bear());
    assert!(!FMTVersion::KierlikRosinberg.is_white_bear());
}

#[test]
fn empty_parameter_set_uses_general_terms() {
    let p: Params = SaftVRQMieParameters::new(vec![], vec![], None).unwrap();
    let f = SaftVRQMieFunctional::with_options(Arc::new(p), FMTVersion::WhiteBear, options(false));
    assert_eq!(f.contributions().len(), 2);
    assert!(matches!(f.ideal_gas(), IdealGas::Default(0)));
}
