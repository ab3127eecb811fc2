use exstatic::{
    conclude, normal_cdf, normal_entropy, normal_inverse_cdf, normal_ln_pdf, normal_pdf,
    normal_sf, normal_variance, t_cdf, t_inverse_cdf, t_ln_pdf, t_pdf, t_sf, t_variance, Binary64,
    DistError, Distribution, Evaluation, Query, Statistic,
};
use statrs::distribution::{Continuous, ContinuousCDF, Normal, StudentsT};
use statrs::statistics::Distribution as Moments;

fn number(x: f64) -> Binary64 {
    Binary64::from_bits(x.to_bits())
}

fn float(x: Binary64) -> f64 {
    f64::from_bits(x.to_bits())
}

fn answer<D>(dist: &D, query: Query) -> Result<f64, DistError>
where
    D: Continuous<f64, f64> + ContinuousCDF<f64, f64> + Moments<f64>,
{
    match query {
        Query::Pdf(x) => Ok(dist.pdf(float(x))),
        Query::LnPdf(x) => Ok(dist.ln_pdf(float(x))),
        Query::Cdf(x) => Ok(dist.cdf(float(x))),
        Query::Sf(x) => Ok(dist.sf(float(x))),
        Query::InverseCdf(p) => Ok(dist.inverse_cdf(float(p))),
        Query::Entropy => conclude(Statistic::Entropy, dist.entropy().map(number)).map(float),
        Query::Variance => conclude(Statistic::Variance, dist.variance().map(number)).map(float),
    }
}

fn run(request: Result<Evaluation, DistError>) -> Result<f64, DistError> {
    let evaluation = request?;
    match evaluation.distribution {
        Distribution::Normal(n) => {
            let dist = Normal::new(float(n.mean), float(n.std_dev)).unwrap();
            answer(&dist, evaluation.query)
        }
        Distribution::StudentsT(t) => {
            let dist = StudentsT::new(float(t.mean), float(t.std_dev), float(t.df)).unwrap();
            answer(&dist, evaluation.query)
        }
    }
}

fn close(a: f64, b: f64, tolerance: f64) -> bool {
    (a - b).abs() <= tolerance * b.abs().max(1.0)
}

#[test]
fn normal_density_peaks_at_the_mean() {
    for (mean, std_dev) in [(0.0, 1.0), (3.5, 0.25), (-2.0, 10.0), (1.0e3, 1.0e-3)] {
        let peak = run(normal_pdf(number(mean), number(std_dev), number(mean))).unwrap();
        let expected = 1.0 / (std_dev * (2.0 * std::f64::consts::PI).sqrt());
        assert!(close(peak, expected, 1e-14));
        for x in [mean - std_dev, mean + 0.5 * std_dev, mean + 3.0 * std_dev] {
            assert!(run(normal_pdf(number(mean), number(std_dev), number(x))).unwrap() < peak);
        }
    }
}

#[test]
fn normal_cdf_and_sf_sum_to_one() {
    for (mean, std_dev) in [(0.0, 1.0), (3.5, 0.25), (-2.0, 10.0)] {
        for x in [-30.0, -3.0, -1.0, -0.1, 0.0, 0.3, 1.0, 2.5, 8.0, 40.0] {
            let cdf = run(normal_cdf(number(mean), number(std_dev), number(x))).unwrap();
            let sf = run(normal_sf(number(mean), number(std_dev), number(x))).unwrap();
            assert!(close(cdf + sf, 1.0, 1e-12));
        }
    }
}

#[test]
fn normal_inverse_cdf_undoes_the_cdf() {
    for (mean, std_dev) in [(0.0, 1.0), (3.5, 0.25), (-2.0, 10.0)] {
        for z in [-3.0, -1.5, -0.5, 0.0, 0.25, 1.0, 2.0, 3.0] {
            let x = mean + z * std_dev;
            let p = run(normal_cdf(number(mean), number(std_dev), number(x))).unwrap();
            let back = run(normal_inverse_cdf(number(mean), number(std_dev), number(p))).unwrap();
            assert!((back - x).abs() <= 1e-6 * std_dev);
        }
    }
}

#[test]
fn normal_entropy_follows_the_formula() {
    for std_dev in [0.1, 0.5, 1.0, 2.0, 10.0, 123.456] {
        let entropy = run(normal_entropy(number(std_dev))).unwrap();
        let expected =
            0.5 * (2.0 * std::f64::consts::PI * std::f64::consts::E * std_dev * std_dev).ln();
        assert!(close(entropy, expected, 1e-14));
    }
    assert!(close(run(normal_entropy(number(1.0))).unwrap(), 1.4189385332046727, 1e-15));
}

#[test]
fn normal_variance_is_the_square_of_the_std_dev() {
    for std_dev in [0.1, 0.5, 1.0, 2.0, 10.0] {
        assert_eq!(run(normal_variance(number(std_dev))), Ok(std_dev * std_dev));
    }
    assert_eq!(run(normal_variance(number(3.0))), Ok(9.0));
}

#[test]
fn normal_ln_pdf_is_the_logarithm_of_the_pdf() {
    for x in [-2.0, 0.0, 0.7, 3.0] {
        let pdf = run(normal_pdf(number(1.0), number(2.0), number(x))).unwrap();
        let ln_pdf = run(normal_ln_pdf(number(1.0), number(2.0), number(x))).unwrap();
        assert!(close(ln_pdf, pdf.ln(), 1e-13));
    }
    let far = run(normal_ln_pdf(number(0.0), number(1.0), number(100.0))).unwrap();
    assert!(far.is_finite());
    assert!(close(far, -5000.918938533205, 1e-12));
}

#[test]
fn t_variance_follows_the_three_ranges() {
    for std_dev in [0.5, 1.0, 3.0] {
        for df in [0.5, 1.0] {
            assert_eq!(
                run(t_variance(number(std_dev), number(df))),
                Err(DistError::UndefinedVariance)
            );
        }
        for df in [1.5, 2.0] {
            assert_eq!(
                run(t_variance(number(std_dev), number(df))),
                Err(DistError::InfiniteVariance)
            );
        }
        for df in [3.0, 10.0] {
            let variance = run(t_variance(number(std_dev), number(df))).unwrap();
            assert!(close(variance, std_dev * std_dev * df / (df - 2.0), 1e-14));
        }
    }
    assert_eq!(run(t_variance(number(1.0), number(3.0))), Ok(3.0));
    assert_eq!(run(t_variance(number(2.0), number(10.0))), Ok(5.0));
    assert_eq!(run(t_variance(number(2.0), number(f64::INFINITY))), Ok(4.0));
}

#[test]
fn inverse_cdf_at_the_ends_and_the_middle_of_the_interval() {
    assert_eq!(
        run(normal_inverse_cdf(number(0.0), number(1.0), number(-0.1))),
        Err(DistError::InvalidArgument)
    );
    assert_eq!(
        run(normal_inverse_cdf(number(0.0), number(1.0), number(1.1))),
        Err(DistError::InvalidArgument)
    );
    assert_eq!(
        run(t_inverse_cdf(number(0.0), number(1.0), number(5.0), number(-0.1))),
        Err(DistError::InvalidArgument)
    );
    assert_eq!(
        run(t_inverse_cdf(number(0.0), number(1.0), number(5.0), number(1.1))),
        Err(DistError::InvalidArgument)
    );
    assert_eq!(run(normal_inverse_cdf(number(2.0), number(1.0), number(0.5))), Ok(2.0));
    assert_eq!(run(t_inverse_cdf(number(2.0), number(1.0), number(5.0), number(0.5))), Ok(2.0));
    assert_eq!(
        run(normal_inverse_cdf(number(0.0), number(1.0), number(0.0))),
        Ok(f64::NEG_INFINITY)
    );
    assert_eq!(run(normal_inverse_cdf(number(0.0), number(1.0), number(1.0))), Ok(f64::INFINITY));
    assert_eq!(
        run(t_inverse_cdf(number(0.0), number(1.0), number(5.0), number(0.0))),
        Ok(f64::NEG_INFINITY)
    );
    assert_eq!(
        run(t_inverse_cdf(number(0.0), number(1.0), number(5.0), number(1.0))),
        Ok(f64::INFINITY)
    );
}

#[test]
fn known_values() {
    let pdf = run(normal_pdf(number(0.0), number(1.0), number(0.0))).unwrap();
    assert!(close(pdf, 0.3989422804014327, 1e-15));
    let cdf = run(normal_cdf(number(0.0), number(1.0), number(1.959963985))).unwrap();
    assert!(close(cdf, 0.975, 1e-9));
    let t = run(t_pdf(number(0.0), number(1.0), number(5.0), number(0.0))).unwrap();
    assert!(close(t, 0.3796066898224944, 1e-13));
}

#[test]
fn t_functions_agree_with_one_another() {
    for x in [-4.0, -1.0, 0.0, 0.5, 2.0, 6.0] {
        let cdf = run(t_cdf(number(1.0), number(2.0), number(5.0), number(x))).unwrap();
        let sf = run(t_sf(number(1.0), number(2.0), number(5.0), number(x))).unwrap();
        assert!(close(cdf + sf, 1.0, 1e-12));
        let pdf = run(t_pdf(number(1.0), number(2.0), number(5.0), number(x))).unwrap();
        let ln_pdf = run(t_ln_pdf(number(1.0), number(2.0), number(5.0), number(x))).unwrap();
        assert!(close(ln_pdf, pdf.ln(), 1e-12));
        let back = run(t_inverse_cdf(number(1.0), number(2.0), number(5.0), number(cdf))).unwrap();
        assert!((back - x).abs() <= 1e-6);
    }
}

#[test]
fn invalid_parameters_reach_no_routine() {
    assert!(matches!(
        run(normal_pdf(number(0.0), number(0.0), number(0.0))),
        Err(DistError::InvalidParameter(_))
    ));
    assert!(matches!(
        run(normal_cdf(number(0.0), number(-1.0), number(0.0))),
        Err(DistError::InvalidParameter(_))
    ));
    assert!(matches!(
        run(t_pdf(number(0.0), number(1.0), number(0.0), number(0.0))),
        Err(DistError::InvalidParameter(_))
    ));
    assert!(matches!(
        run(t_cdf(number(0.0), number(1.0), number(-3.0), number(0.0))),
        Err(DistError::InvalidParameter(_))
    ));
}

#[test]
fn every_accepted_request_is_accepted_by_the_routines() {
    let values = [
        f64::NAN, f64::NEG_INFINITY, -1.0, -0.0, 0.0, 5e-324, 0.5, 1.0, 2.0, 3.0, 1.0e300,
        f64::INFINITY,
    ];
    for mean in values {
        for std_dev in values {
            if exstatic::Normal::new(number(mean), number(std_dev)).is_ok() {
                assert!(Normal::new(mean, std_dev).is_ok());
            }
            for df in values {
                if exstatic::StudentsT::new(number(mean), number(std_dev), number(df)).is_ok() {
                    assert!(StudentsT::new(mean, std_dev, df).is_ok());
                }
            }
        }
    }
}
