use xornet::eval::{calculate_cost, forward, predict, report, sigmoid, training_row};
use xornet::init::rand_xor;
use xornet::model::{get_param, set_param, NeuralNetwork, Xor};
use xornet::training::{finite_difference_method, run_training, train, train_step};

fn net_of(p: [f32; 9]) -> Xor {
    Xor {
        gate_or: NeuralNetwork { w1: p[0].to_bits(), w2: p[1].to_bits(), b: p[2].to_bits() },
        gate_and: NeuralNetwork { w1: p[3].to_bits(), w2: p[4].to_bits(), b: p[5].to_bits() },
        gate_nand: NeuralNetwork { w1: p[6].to_bits(), w2: p[7].to_bits(), b: p[8].to_bits() },
    }
}

/// Nine distinct draws standing in for a fixed-sequence entropy source.
fn fixed_entropy_net() -> Xor {
    net_of([0.1, 0.2, 0.3, 0.4, 0.5, 0.6, 0.7, 0.8, 0.9])
}

fn predictions(m: Xor) -> Vec<u32> {
    report(m).into_iter().map(|t| t.2).collect()
}

#[test]
fn sigmoid_at_zero_is_half() {
    assert_eq!(sigmoid(0.0f32.to_bits()), 0.5f32.to_bits());
}

#[test]
fn sigmoid_monotone_and_bounded_on_samples() {
    let mut prev = f32::from_bits(sigmoid((-15.0f32).to_bits()));
    let mut i = -120i32;
    while i <= 120 {
        let x = i as f32 * 0.125;
        let y = f32::from_bits(sigmoid(x.to_bits()));
        assert!(y > 0.0 && y < 1.0);
        assert!(y >= prev);
        prev = y;
        i += 1;
    }
}

#[test]
fn sigmoid_close_to_reference() {
    let mut i = -120i32;
    while i <= 120 {
        let x = i as f32 * 0.125;
        let y = f32::from_bits(sigmoid(x.to_bits()));
        let r = 1.0f32 / (1.0f32 + (-x).exp());
        assert!((y - r).abs() < 5e-4, "x={} y={} r={}", x, y, r);
        i += 1;
    }
}

#[test]
fn forward_is_deterministic() {
    let m = fixed_entropy_net();
    let a = forward(m, 1.0f32.to_bits(), 0.0f32.to_bits());
    let b = forward(m, 1.0f32.to_bits(), 0.0f32.to_bits());
    assert_eq!(a, b);
}

#[test]
fn cost_of_flat_half_output_is_quarter() {
    // With the output unit zeroed the network answers 0.5 on every row,
    // so the mean squared error over the XOR table is exactly 0.25.
    let m = net_of([0.3, 0.8, -0.4, 0.0, 0.0, 0.0, 0.7, 0.2, 0.9]);
    assert_eq!(calculate_cost(m), 0.25f32.to_bits());
}

#[test]
fn training_rows_are_the_xor_table() {
    let zero = 0.0f32.to_bits();
    let one = 1.0f32.to_bits();
    assert_eq!(training_row(0), (zero, zero, zero));
    assert_eq!(training_row(1), (zero, one, one));
    assert_eq!(training_row(2), (one, zero, one));
    assert_eq!(training_row(3), (one, one, zero));
}

#[test]
fn gradient_estimation_restores_the_network() {
    let before = fixed_entropy_net();
    let mut m = before;
    let _g = finite_difference_method(&mut m);
    assert_eq!(m, before);
}

#[test]
fn gradient_entries_match_reference_quotients() {
    let mut m = fixed_entropy_net();
    let g = finite_difference_method(&mut m);
    let base = f32::from_bits(calculate_cost(m));
    let mut p0 = m;
    p0.gate_or.w1 = (f32::from_bits(m.gate_or.w1) + 0.1f32).to_bits();
    let expected0 = ((f32::from_bits(calculate_cost(p0)) - base) / 0.1f32).to_bits();
    assert_eq!(g.gate_or.w1, expected0);
    let mut p8 = m;
    p8.gate_nand.b = (f32::from_bits(m.gate_nand.b) + 0.1f32).to_bits();
    let expected8 = ((f32::from_bits(calculate_cost(p8)) - base) / 0.1f32).to_bits();
    assert_eq!(g.gate_nand.b, expected8);
}

#[test]
fn train_applies_the_descent_rule() {
    let m = fixed_entropy_net();
    let g = net_of([0.5, -0.25, 2.0, -1.5, 0.125, 3.5, -0.75, 0.0625, 1.0]);
    let t = train(m, g);
    let mut i = 0usize;
    while i < 9 {
        let expected =
            (f32::from_bits(get_param(m, i)) - 0.1f32 * f32::from_bits(get_param(g, i))).to_bits();
        assert_eq!(get_param(t, i), expected);
        i += 1;
    }
}

#[test]
fn set_param_changes_only_its_slot() {
    let m = fixed_entropy_net();
    let v = 2.5f32.to_bits();
    let m4 = set_param(m, 4, v);
    let mut i = 0usize;
    while i < 9 {
        if i == 4 {
            assert_eq!(get_param(m4, i), v);
        } else {
            assert_eq!(get_param(m4, i), get_param(m, i));
        }
        i += 1;
    }
}

#[test]
fn zero_epochs_still_reports_four_predictions() {
    let m = fixed_entropy_net();
    let trained = run_training(m, 0);
    assert_eq!(trained, m);
    let lines = report(trained);
    assert_eq!(lines.len(), 4);
    assert_eq!((lines[0].0, lines[0].1), (0, 0));
    assert_eq!((lines[1].0, lines[1].1), (0, 1));
    assert_eq!((lines[2].0, lines[2].1), (1, 0));
    assert_eq!((lines[3].0, lines[3].1), (1, 1));
    assert_eq!(lines[0].2, predict(m, 0.0f32.to_bits(), 0.0f32.to_bits()));
}

#[test]
fn one_train_step_equals_estimate_then_train() {
    let m = fixed_entropy_net();
    let mut probe = m;
    let g = finite_difference_method(&mut probe);
    let expected = train(probe, g);
    assert_eq!(train_step(m), expected);
}

#[test]
fn rand_xor_draws_lie_in_unit_interval() {
    let m = rand_xor();
    let mut i = 0usize;
    while i < 9 {
        let v = f32::from_bits(get_param(m, i));
        assert!(v >= 0.0 && v < 1.0);
        i += 1;
    }
}

#[test]
fn cost_trend_is_non_increasing_over_sampled_run() {
    let mut m = fixed_entropy_net();
    let mut prev = f32::from_bits(calculate_cost(m));
    let mut k = 0;
    while k < 5 {
        m = run_training(m, 1000);
        let c = f32::from_bits(calculate_cost(m));
        assert!(c <= prev, "cost rose from {} to {} at sample {}", prev, c, k);
        prev = c;
        k += 1;
    }
}

#[test]
fn trains_to_xor_from_fixed_entropy() {
    let mut m = fixed_entropy_net();
    let mut learned = false;
    let mut chunk = 0;
    while chunk < 16 {
        m = run_training(m, 1000);
        if predictions(m) == vec![0u32, 1, 1, 0] {
            learned = true;
            break;
        }
        chunk += 1;
    }
    assert!(learned, "predictions still {:?}", predictions(m));
}
