use rust_nn::activation::{Heaviside, Linear, ReLU};

#[test]
fn test_activation_relu_function() {
    let relu = ReLU {};
    assert_eq!(relu.function((-1.0f64).to_bits()), (0.0f64).to_bits());
    assert_eq!(relu.function((0.0f64).to_bits()), (0.0f64).to_bits());
    assert_eq!(relu.function((1.0f64).to_bits()), (1.0f64).to_bits());
}

#[test]
fn test_activation_relu_derivative() {
    let relu = ReLU {};
    assert_eq!(relu.derivative((-1.0f64).to_bits()), (0.0f64).to_bits());
    assert_eq!(relu.derivative((0.0f64).to_bits()), (0.0f64).to_bits());
    assert_eq!(relu.derivative((1.0f64).to_bits()), (1.0f64).to_bits());
}

#[test]
fn test_activation_linear_function() {
    let linear = Linear {};
    assert_eq!(linear.function((-1.0f64).to_bits()), (-1.0f64).to_bits());
    assert_eq!(linear.function((0.0f64).to_bits()), (0.0f64).to_bits());
    assert_eq!(linear.function((1.0f64).to_bits()), (1.0f64).to_bits());
}

#[test]
fn test_activation_linear_derivative() {
    let linear = Linear {};
    assert_eq!(linear.derivative((-1.0f64).to_bits()), (1.0f64).to_bits());
    assert_eq!(linear.derivative((0.0f64).to_bits()), (1.0f64).to_bits());
    assert_eq!(linear.derivative((1.0f64).to_bits()), (1.0f64).to_bits());
}

#[test]
fn test_activation_heaviside_function() {
    let heaviside = Heaviside {};
    assert_eq!(heaviside.function((-1.0f64).to_bits()), (0.0f64).to_bits());
    assert_eq!(heaviside.function((0.0f64).to_bits()), (0.0f64).to_bits());
    assert_eq!(heaviside.function((1.0f64).to_bits()), (1.0f64).to_bits());
}

#[test]
fn test_activation_heaviside_derivative() {
    let heaviside = Heaviside {};
    assert_eq!(heaviside.derivative((-1.0f64).to_bits()), (0.0f64).to_bits());
    assert_eq!(heaviside.derivative((0.0f64).to_bits()), (0.0f64).to_bits());
    assert_eq!(heaviside.derivative((1.0f64).to_bits()), (0.0f64).to_bits());
}

#[test]
fn test_relu_function_matches_real_max() {
    let relu = ReLU {};
    let samples: [f64; 8] = [
        -2.5,
        -1.0,
        -0.0,
        0.0,
        0.5,
        1.5,
        f64::INFINITY,
        f64::MIN_POSITIVE / 2.0,
    ];
    for &x in samples.iter() {
        let got = f64::from_bits(relu.function(x.to_bits()));
        assert_eq!(got, x.max(0.0), "relu mismatch at {x}");
    }
    // A NaN is not greater than zero, so it is clamped to zero.
    assert_eq!(f64::from_bits(relu.function(f64::NAN.to_bits())), 0.0);
    assert_eq!(
        f64::from_bits(relu.function(f64::NEG_INFINITY.to_bits())),
        0.0
    );
}

#[test]
fn test_relu_derivative_is_one_iff_positive() {
    let relu = ReLU {};
    let samples: [f64; 9] = [
        -3.5,
        -0.0,
        0.0,
        1e-300,
        0.25,
        7.0,
        f64::INFINITY,
        f64::NEG_INFINITY,
        f64::NAN,
    ];
    for &x in samples.iter() {
        let expected = if x > 0.0 { 1.0 } else { 0.0 };
        let got = f64::from_bits(relu.derivative(x.to_bits()));
        assert_eq!(got, expected, "relu derivative mismatch at {x}");
    }
}

#[test]
fn test_heaviside_function_matches_step() {
    let heaviside = Heaviside {};
    let samples: [f64; 9] = [
        -3.5,
        -0.0,
        0.0,
        1e-300,
        0.25,
        7.0,
        f64::INFINITY,
        f64::NEG_INFINITY,
        f64::NAN,
    ];
    for &x in samples.iter() {
        let expected = if x > 0.0 { 1.0 } else { 0.0 };
        let got = f64::from_bits(heaviside.function(x.to_bits()));
        assert_eq!(got, expected, "heaviside mismatch at {x}");
    }
}

#[test]
fn test_activation_vector_forms() {
    let relu = ReLU {};
    let linear = Linear {};
    let heaviside = Heaviside {};
    let xs: Vec<u64> = [-1.0f64, 0.0, 2.0, -0.5]
        .iter()
        .map(|x| x.to_bits())
        .collect();

    let relu_fn = relu.function_vec(&xs);
    let relu_dv = relu.derivative_vec(&xs);
    let lin_fn = linear.function_vec(&xs);
    let lin_dv = linear.derivative_vec(&xs);
    let hev_fn = heaviside.function_vec(&xs);
    let hev_dv = heaviside.derivative_vec(&xs);

    assert_eq!(relu_fn.len(), xs.len());
    for i in 0..xs.len() {
        assert_eq!(relu_fn[i], relu.function(xs[i]));
        assert_eq!(relu_dv[i], relu.derivative(xs[i]));
        assert_eq!(lin_fn[i], xs[i]);
        assert_eq!(lin_dv[i], (1.0f64).to_bits());
        assert_eq!(hev_fn[i], heaviside.function(xs[i]));
        assert_eq!(hev_dv[i], (0.0f64).to_bits());
    }
}
