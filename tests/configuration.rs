use cpd::gauss_transform::{validate_outlier_weight, InvalidOutlierWeight};
use cpd::iteration::{Action, ConfigurationError, Controller, Phase};
use cpd::rigid::CannotNormalizeIndependentlyWithoutScale;
use cpd::runner::{
    DEFAULT_ERROR_CHANGE_THRESHOLD, DEFAULT_MAX_ITERATIONS, DEFAULT_OUTLIER_WEIGHT,
    DEFAULT_SIGMA2_THRESHOLD,
};
use cpd::{Normalize, Rigid, Runner};

#[test]
fn transformer_invalid_outlier_weight() {
    assert_eq!(
        InvalidOutlierWeight((-1f64).to_bits()),
        validate_outlier_weight((-1f64).to_bits()).unwrap_err()
    );
    assert_eq!(
        InvalidOutlierWeight(1.1f64.to_bits()),
        validate_outlier_weight(1.1f64.to_bits()).unwrap_err()
    );
}

#[test]
fn valid_outlier_weights() {
    for w in [0.0f64, -0.0, 0.1, 0.5, 1.0, f64::MIN_POSITIVE, 5e-324] {
        assert_eq!(Ok(()), validate_outlier_weight(w.to_bits()), "{}", w);
    }
    for w in [1.0000000000000002f64, -5e-324, 2.0, f64::NAN, f64::INFINITY, f64::NEG_INFINITY] {
        assert_eq!(
            Err(InvalidOutlierWeight(w.to_bits())),
            validate_outlier_weight(w.to_bits()),
            "{}",
            w
        );
    }
    assert_eq!(7u64, InvalidOutlierWeight(7).bits());
}

#[test]
fn normalize_independent_and_no_scale() {
    let rigid = Runner::new()
        .normalize(Normalize::Independent)
        .rigid()
        .scale(false);
    assert!(rigid.validate().is_err());
}

#[test]
fn scale_compatibility() {
    let independent = Runner::new().normalize(Normalize::Independent).rigid();
    assert_eq!(
        Err(CannotNormalizeIndependentlyWithoutScale {}),
        independent.validate()
    );
    assert_eq!(Ok(()), independent.scale(true).validate());
    for normalize in [Normalize::SameScale, Normalize::Disabled] {
        let rigid = Runner::new().normalize(normalize).rigid();
        assert_eq!(Ok(()), rigid.validate());
        assert_eq!(Ok(()), rigid.scale(true).validate());
    }
    assert!(!CannotNormalizeIndependentlyWithoutScale {}.message().is_empty());
}

#[test]
fn requires_scaling() {
    assert!(Normalize::Independent.requires_scaling());
    assert!(!Normalize::SameScale.requires_scaling());
    assert!(!Normalize::Disabled.requires_scaling());
    assert!(Runner::new().normalize(Normalize::Independent).requires_scaling());
    assert!(!Runner::new().normalize(Normalize::SameScale).requires_scaling());
    assert_eq!(Normalize::SameScale, Normalize::default());
}

#[test]
fn default_settings() {
    assert_eq!(1e-5, f64::from_bits(DEFAULT_ERROR_CHANGE_THRESHOLD));
    assert_eq!(0.1, f64::from_bits(DEFAULT_OUTLIER_WEIGHT));
    assert_eq!(f64::EPSILON * 10., f64::from_bits(DEFAULT_SIGMA2_THRESHOLD));
    assert_eq!(150, DEFAULT_MAX_ITERATIONS);
    let runner = Runner::new();
    assert_eq!(DEFAULT_ERROR_CHANGE_THRESHOLD, runner.error_change_threshold);
    assert_eq!(DEFAULT_MAX_ITERATIONS, runner.max_iterations);
    assert_eq!(Normalize::SameScale, runner.normalize);
    assert_eq!(DEFAULT_OUTLIER_WEIGHT, runner.outlier_weight);
    assert_eq!(None, runner.sigma2);
    assert_eq!(DEFAULT_SIGMA2_THRESHOLD, runner.sigma2_threshold);
    let rigid = Rigid::new();
    assert!(!rigid.allow_reflections);
    assert!(!rigid.scale);
    assert_eq!(DEFAULT_MAX_ITERATIONS, rigid.runner.max_iterations);
}

#[test]
fn builders() {
    let runner = Runner::new()
        .error_change_threshold(1e-8f64.to_bits())
        .max_iterations(10)
        .normalize(Normalize::Disabled)
        .outlier_weight(0.2f64.to_bits())
        .sigma2(Some(1.1f64.to_bits()));
    assert_eq!(1e-8f64.to_bits(), runner.error_change_threshold);
    assert_eq!(10, runner.max_iterations);
    assert_eq!(Normalize::Disabled, runner.normalize);
    assert_eq!(0.2f64.to_bits(), runner.outlier_weight);
    assert_eq!(Some(1.1f64.to_bits()), runner.sigma2);
    assert_eq!(None, runner.sigma2(None).sigma2);
    let rigid = runner.rigid().allow_reflections(true).scale(true);
    assert!(rigid.allow_reflections);
    assert!(rigid.scale);
    assert_eq!(10, rigid.runner.max_iterations);
    let from: Rigid = Rigid::from(runner);
    assert!(!from.allow_reflections && !from.scale);
    assert_eq!(0.2f64.to_bits(), from.runner.outlier_weight);
}

#[test]
fn start_rejects_bad_configurations() {
    let bad_weight = Runner::new().outlier_weight(1.5f64.to_bits()).rigid();
    assert_eq!(
        Some(ConfigurationError::OutlierWeight(InvalidOutlierWeight(1.5f64.to_bits()))),
        Controller::start(&bad_weight).err()
    );
    let bad_scale = Runner::new().normalize(Normalize::Independent).rigid();
    assert_eq!(
        Some(ConfigurationError::Scaling(CannotNormalizeIndependentlyWithoutScale {})),
        Controller::start(&bad_scale).err()
    );
    let both = Runner::new()
        .normalize(Normalize::Independent)
        .outlier_weight((-0.5f64).to_bits())
        .rigid();
    assert_eq!(
        Some(ConfigurationError::Scaling(CannotNormalizeIndependentlyWithoutScale {})),
        Controller::start(&both).err()
    );
    let nan_weight = Runner::new().outlier_weight(f64::NAN.to_bits()).rigid();
    assert!(Controller::start(&nan_weight).is_err());
}

fn controller(max_iterations: usize) -> Controller {
    let rigid = Runner::new().max_iterations(max_iterations).rigid();
    let controller = Controller::start(&rigid).unwrap();
    assert_eq!(Phase::Iterating, controller.phase());
    assert_eq!(0, controller.iterations());
    controller
}

#[test]
fn converges_on_error_change() {
    let mut c = controller(150);
    assert_eq!(Action::Iterate, c.decide(f64::MAX.to_bits(), 1.0f64.to_bits()));
    assert_eq!(Action::Iterate, c.decide(0.5f64.to_bits(), 0.5f64.to_bits()));
    assert_eq!(Action::Finish, c.decide(1e-5f64.to_bits(), 0.25f64.to_bits()));
    assert_eq!(Phase::Converged, c.phase());
    assert_eq!(2, c.iterations());
    assert!(c.converged());
    assert_eq!(Action::Finish, c.decide(f64::MAX.to_bits(), 1.0f64.to_bits()));
    assert_eq!(2, c.iterations());
}

#[test]
fn converges_on_sigma2() {
    let mut c = controller(150);
    assert_eq!(Action::Iterate, c.decide(f64::MAX.to_bits(), 1.0f64.to_bits()));
    let tiny = (f64::EPSILON * 10.).to_bits();
    assert_eq!(Action::Finish, c.decide(1.0f64.to_bits(), tiny));
    assert!(c.converged());
    assert_eq!(1, c.iterations());
}

#[test]
fn stops_on_nan_signal() {
    let mut c = controller(150);
    assert_eq!(Action::Finish, c.decide(f64::NAN.to_bits(), 1.0f64.to_bits()));
    assert!(c.converged());
    assert_eq!(0, c.iterations());
}

#[test]
fn exhausts_iteration_limit() {
    let mut c = controller(3);
    for _ in 0..3 {
        assert_eq!(Action::Iterate, c.decide(1.0f64.to_bits(), 1.0f64.to_bits()));
    }
    assert_eq!(Action::Finish, c.decide(1.0f64.to_bits(), 1.0f64.to_bits()));
    assert_eq!(Phase::Exhausted, c.phase());
    assert_eq!(3, c.iterations());
    assert!(!c.converged());
}

#[test]
fn zero_iteration_limit() {
    let mut c = controller(0);
    assert_eq!(Action::Finish, c.decide(f64::MAX.to_bits(), 1.0f64.to_bits()));
    assert_eq!(Phase::Exhausted, c.phase());
    assert!(!c.converged());
}

#[test]
fn failure_is_final() {
    let mut c = controller(10);
    assert_eq!(Action::Iterate, c.decide(f64::MAX.to_bits(), 1.0f64.to_bits()));
    c.fail();
    assert_eq!(Phase::Failed, c.phase());
    assert_eq!(Action::Finish, c.decide(f64::MAX.to_bits(), 1.0f64.to_bits()));
    assert_eq!(Phase::Failed, c.phase());
    assert!(!c.converged());
    assert_eq!(1, c.iterations());
}
