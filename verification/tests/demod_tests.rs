use slowscan::demod::{analytic_gain, phase_delta, phase_deltas, BinGain};

#[test]
fn phase_delta_small_step() {
    assert_eq!(phase_delta(100, 250), 150);
    assert_eq!(phase_delta(250, 100), -150);
}

#[test]
fn phase_delta_wraps_across_pi() {
    // From just below +pi to just above -pi is a small positive step.
    assert_eq!(phase_delta(32000, -32000), 1536);
    assert_eq!(phase_delta(-32000, 32000), -1536);
}

#[test]
fn phase_delta_extremes() {
    assert_eq!(phase_delta(i16::MIN, i16::MAX), -1);
    assert_eq!(phase_delta(0, i16::MIN), i16::MIN);
    assert_eq!(phase_delta(5, 5), 0);
}

#[test]
fn phase_delta_round_trip() {
    for &(a, b) in &[(0i16, 1i16), (32767, -32768), (-12345, 23456), (100, -100)] {
        assert_eq!(a.wrapping_add(phase_delta(a, b)), b);
    }
}

#[test]
fn phase_deltas_of_neighbours() {
    assert_eq!(phase_deltas(&vec![0, 10, 5, 32767, -32768]), vec![10, -5, 32762, 1]);
    assert_eq!(phase_deltas(&vec![7]), Vec::<i16>::new());
    assert_eq!(phase_deltas(&Vec::new()), Vec::<i16>::new());
}

#[test]
fn analytic_gains_for_eight_bins() {
    let gains: Vec<BinGain> = (0..8).map(|k| analytic_gain(k, 8)).collect();
    assert_eq!(
        gains,
        vec![
            BinGain::Zero,
            BinGain::Double,
            BinGain::Double,
            BinGain::Double,
            BinGain::Keep,
            BinGain::Zero,
            BinGain::Zero,
            BinGain::Zero,
        ]
    );
}

#[test]
fn analytic_gains_for_odd_and_tiny_sizes() {
    assert_eq!(analytic_gain(0, 1), BinGain::Zero);
    assert_eq!(analytic_gain(0, 2), BinGain::Zero);
    assert_eq!(analytic_gain(1, 2), BinGain::Keep);
    assert_eq!(analytic_gain(1, 5), BinGain::Double);
    assert_eq!(analytic_gain(2, 5), BinGain::Keep);
    assert_eq!(analytic_gain(3, 5), BinGain::Zero);
}
