use dense_matrix::math::Matrix;
use dense_matrix::math::Scalar;
use dense_matrix::random::Draw;
use dense_matrix::random::NormalDistRng;
use dense_matrix::random::seed_from_micros;
use dense_matrix::random::RngBase;
use dense_matrix::random::Splitmix64;

#[derive(Clone, Copy, Debug, PartialEq)]
struct Real(f64);

impl Scalar for Real {
    fn zero_value() -> Real {
        Real(0.0)
    }

    fn sum(self, rhs: Real) -> Real {
        Real(self.0 + rhs.0)
    }

    fn difference(self, rhs: Real) -> Real {
        Real(self.0 - rhs.0)
    }

    fn product(self, rhs: Real) -> Real {
        Real(self.0 * rhs.0)
    }

    fn sum_commutes(_a: Real, _b: Real) {
    }

    fn zero() -> Real {
        Real::zero_value()
    }

    fn add(self, rhs: Real) -> Real {
        self.sum(rhs)
    }

    fn sub(self, rhs: Real) -> Real {
        self.difference(rhs)
    }

    fn mul(self, rhs: Real) -> Real {
        self.product(rhs)
    }
}

fn unit_interval(word: u64) -> f64 {
    word as f64 / u64::MAX as f64
}

fn next_f64(rng: &mut RngBase) -> f64 {
    unit_interval(rng.next())
}

fn gauss_random(rng: &mut NormalDistRng<Real>) -> f64 {
    loop {
        match rng.draw() {
            Draw::Ready(held) => return held.0,
            Draw::Fresh(first, second) => {
                let u = unit_interval(first) * 2. - 1.;
                let v = unit_interval(second) * 2. - 1.;
                let r = u * u + v * v;
                if r > 0. && r < 1. {
                    let c = (-2. * r.ln() / r).sqrt();
                    return rng.accept(Real(c * u), Real(c * v)).0;
                }
            }
        }
    }
}

fn next_sample(rng: &mut NormalDistRng<Real>) -> f64 {
    let standard = gauss_random(rng);
    rng.scale(Real(standard)).0
}

#[test]
fn next_float() {
    let mut rng = RngBase::new();

    let values: Vec<f64> = (0..100).into_iter().map(|_| next_f64(&mut rng)).collect();

    println!("{:?}", values);
    assert_eq!(values.len(), 100);
    assert!(values.iter().all(|v| 0. <= *v && *v <= 1.));
}

#[test]
fn next_normal() {
    let mut rng = NormalDistRng::from_mean_and_std(Real(0.), Real(1.));
    let values: Vec<f64> = (0..100).into_iter().map(|_| next_sample(&mut rng)).collect();
    println!("{:?}", values);
    assert_eq!(values.len(), 100);
    assert!(values.iter().all(|v| v.is_finite()));
}

#[test]
fn random_matrix() {
    let mut m: Matrix<Real> = Matrix::zeros(&[10, 10]).unwrap();
    let mut rng = NormalDistRng::from_mean_and_std(Real(0.), Real(1.));
    let redrawn: Vec<Real> = (0..100).map(|_| Real(next_sample(&mut rng))).collect();
    m.refill(&redrawn).unwrap();
    println!("{:?}", m);
    assert_eq!(m.data(), &redrawn[..]);
    assert_eq!(m.dim().rows(), 10);
    assert_eq!(m.dim().columns(), 10);

    let mut rng = NormalDistRng::from_mean_and_std(Real(0.), Real(1.));
    let drawn: Vec<Real> = (0..100).map(|_| Real(next_sample(&mut rng))).collect();
    let m2 = Matrix::new(&drawn, &[10, 10]).unwrap();
    println!("{:?}", m2);
    assert_eq!(m2.data().len(), 100);
}

#[test]
fn expander_first_words_for_seed_zero() {
    let mut mix = Splitmix64::from_seed(0);
    assert_eq!(mix.next(), 0xe220_a839_7b1d_cdaf);
    assert_eq!(mix.next(), 0x6e78_9e6a_a1b9_65f4);
    assert_eq!(mix.next(), 0x06c4_5d18_8009_454f);
}

#[test]
fn expander_words_for_a_given_seed() {
    let mut mix = Splitmix64::from_seed(1234567);
    let words: Vec<u64> = (0..5).map(|_| mix.next()).collect();
    assert_eq!(
        words,
        vec![
            6457827717110365317,
            3203168211198807973,
            9817491932198370423,
            4593380528125082431,
            16408922859458223821
        ]
    );
}

#[test]
fn expander_wraps_at_the_top_of_the_range() {
    let mut high = Splitmix64::from_seed(u64::MAX);
    let mut low = Splitmix64::from_seed(0x9e37_79b9_7f4a_7c14);
    let _ = high.next();
    assert_eq!(high.next(), low.next());
}

#[test]
fn generator_is_seeded_by_the_expander() {
    let mut mix = Splitmix64::from_seed(42);
    let first = mix.next();
    let second = mix.next();
    let mut rng = RngBase::from_seed(42);
    assert_eq!(rng.next(), first.wrapping_add(second));
}

#[test]
fn generator_words_for_given_seeds() {
    let mut rng = RngBase::from_seed(0);
    let words: Vec<u64> = (0..5).map(|_| rng.next()).collect();
    assert_eq!(
        words,
        vec![
            5807750865143411619,
            38375600193489914,
            1180499099402622421,
            4579004446585139580,
            6979005179107534507
        ]
    );
    let mut rng = RngBase::from_seed(42);
    let words: Vec<u64> = (0..5).map(|_| rng.next()).collect();
    assert_eq!(
        words,
        vec![
            16629283624882167704,
            14158568844310674298,
            4169932037010132216,
            9179066979142148672,
            12593803095460051157
        ]
    );
    let mut rng = RngBase::from_seed(u64::MAX);
    let words: Vec<u64> = (0..5).map(|_| rng.next()).collect();
    assert_eq!(
        words,
        vec![
            14878039250348781289,
            14459866659131551115,
            6061679626612904225,
            14700104316428589731,
            12901496110542809045
        ]
    );
}

#[test]
fn same_seed_gives_the_same_stream() {
    for seed in [0u64, 1, 42, 0xdead_beef, u64::MAX] {
        let mut a = RngBase::from_seed(seed);
        let mut b = RngBase::from_seed(seed);
        for _ in 0..1000 {
            assert_eq!(a.next(), b.next());
        }
    }
}

#[test]
fn different_seeds_give_different_streams() {
    let mut a = RngBase::from_seed(1);
    let mut b = RngBase::from_seed(2);
    let first: Vec<u64> = (0..100).map(|_| a.next()).collect();
    let second: Vec<u64> = (0..100).map(|_| b.next()).collect();
    assert_ne!(first, second);
    assert!(first.iter().zip(second.iter()).all(|(x, y)| x != y));
}

#[test]
fn clock_seeded_generators_run() {
    let mut mix = Splitmix64::new();
    let mut rng = RngBase::new();
    let a = mix.next();
    let b = mix.next();
    assert_ne!(a, b);
    let words: Vec<u64> = (0..100).map(|_| rng.next()).collect();
    assert!(words.iter().any(|w| *w != words[0]));
}

#[test]
fn sampler_hands_out_what_it_holds_before_it_draws_again() {
    let mut rng = NormalDistRng::from_seed(9, 0i64, 1i64);
    let mut bits = RngBase::from_seed(9);
    let w0 = bits.next();
    let w1 = bits.next();
    let w2 = bits.next();
    let w3 = bits.next();
    match rng.draw() {
        Draw::Fresh(a, b) => assert_eq!((a, b), (w0, w1)),
        Draw::Ready(_) => panic!("nothing was held"),
    }
    assert_eq!(rng.accept(76, 77), 76);
    match rng.draw() {
        Draw::Ready(held) => assert_eq!(held, 77),
        Draw::Fresh(_, _) => panic!("a value was held"),
    }
    match rng.draw() {
        Draw::Fresh(a, b) => assert_eq!((a, b), (w2, w3)),
        Draw::Ready(_) => panic!("the held value was drawn already"),
    }
}

#[test]
fn sampler_scales_by_deviation_then_adds_the_mean() {
    let rng = NormalDistRng::from_seed(1, 10i64, 3i64);
    assert_eq!(rng.scale(4), 22);
    assert_eq!(rng.scale(-2), 4);
    let rng = NormalDistRng::from_seed(1, Real(1.5), Real(2.));
    assert_eq!(rng.scale(Real(0.25)), Real(2.));
    let skewed = NormalDistRng::from_seed(1, -1i64, i64::MAX);
    assert_eq!(skewed.scale(2), -3);
}

#[test]
fn seeded_samplers_repeat_themselves() {
    let mut a = NormalDistRng::from_seed(2024, Real(0.), Real(1.));
    let mut b = NormalDistRng::from_seed(2024, Real(0.), Real(1.));
    for _ in 0..1000 {
        assert_eq!(next_sample(&mut a), next_sample(&mut b));
    }
}

#[test]
fn standard_normal_sample_has_mean_zero_and_variance_one() {
    let n = 100_000usize;
    let mut rng = NormalDistRng::from_seed(20240607, Real(0.), Real(1.));
    let values: Vec<f64> = (0..n).map(|_| next_sample(&mut rng)).collect();
    let mean = values.iter().sum::<f64>() / n as f64;
    let variance = values.iter().map(|v| (v - mean) * (v - mean)).sum::<f64>() / (n as f64 - 1.);
    let mean_error = 1. / (n as f64).sqrt();
    let variance_error = (2. / (n as f64 - 1.)).sqrt();
    assert!(mean.abs() < 4. * mean_error, "mean {}", mean);
    assert!((variance - 1.).abs() < 4. * variance_error, "variance {}", variance);
}

#[test]
fn affine_sample_has_the_given_mean_and_deviation() {
    let n = 100_000usize;
    let mut rng = NormalDistRng::from_seed(77, Real(5.), Real(2.));
    let values: Vec<f64> = (0..n).map(|_| next_sample(&mut rng)).collect();
    let mean = values.iter().sum::<f64>() / n as f64;
    let variance = values.iter().map(|v| (v - mean) * (v - mean)).sum::<f64>() / (n as f64 - 1.);
    assert!((mean - 5.).abs() < 4. * 2. / (n as f64).sqrt(), "mean {}", mean);
    assert!((variance - 4.).abs() < 4. * 4. * (2. / (n as f64 - 1.)).sqrt(), "variance {}", variance);
}

#[test]
fn a_count_of_microseconds_seeds_by_its_low_word() {
    assert_eq!(seed_from_micros(0), 0);
    assert_eq!(seed_from_micros(1_700_000_000_000_000), 1_700_000_000_000_000);
    assert_eq!(seed_from_micros(u64::MAX as u128), u64::MAX);
    assert_eq!(seed_from_micros((1u128 << 64) + 5), 5);
    assert_eq!(seed_from_micros(u128::MAX), u64::MAX);
}
