use xornet::dataset::xor_inputs;
use xornet::dataset::xor_labels;
use xornet::dims::backward_dims;
use xornet::dims::epoch_dims;
use xornet::dims::forward_dims;
use xornet::dims::update_dims;
use xornet::dims::matmul_dims;
use xornet::dims::transpose_dims;
use xornet::dims::Dims;
use xornet::dims::ParamDims;
use xornet::report::render_ms;
use xornet::report::render_report;
use xornet::schedule::seeds;
use xornet::schedule::NextStep;
use xornet::schedule::RunSchedule;
use xornet::schedule::EPOCHS;

fn xor_params() -> ParamDims {
    ParamDims {
        w0: Dims { rows: 2, cols: 2 },
        b0: Dims { rows: 2, cols: 1 },
        w1: Dims { rows: 2, cols: 1 },
        b1: Dims { rows: 1, cols: 1 },
    }
}

#[test]
fn seed_list_is_fixed() {
    assert_eq!(seeds(), vec![2u64, 10, 24, 45, 98, 120, 350, 600, 899, 1000]);
}

#[test]
fn epoch_count_is_fixed() {
    assert_eq!(EPOCHS, 100000);
}

#[test]
fn dataset_is_the_xor_truth_table() {
    let x = xor_inputs();
    let y = xor_labels();
    assert_eq!(x, vec![vec![0u8, 0, 1, 1], vec![0u8, 1, 0, 1]]);
    assert_eq!(y, vec![vec![0u8, 1, 1, 0]]);
    for j in 0..4 {
        assert_eq!(y[0][j], x[0][j] ^ x[1][j]);
    }
}

#[test]
fn transpose_swaps_extents() {
    let t = transpose_dims(Dims { rows: 2, cols: 4 });
    assert_eq!(t, Dims { rows: 4, cols: 2 });
}

#[test]
fn matmul_needs_agreeing_inner_extents() {
    let a = Dims { rows: 2, cols: 3 };
    let b = Dims { rows: 3, cols: 5 };
    assert_eq!(matmul_dims(a, b), Some(Dims { rows: 2, cols: 5 }));
    assert_eq!(matmul_dims(b, a), None);
}

#[test]
fn forward_shapes_of_the_xor_net() {
    let r = forward_dims(xor_params(), Dims { rows: 2, cols: 4 });
    assert_eq!(
        r,
        Some((Dims { rows: 2, cols: 4 }, Dims { rows: 1, cols: 4 }))
    );
}

#[test]
fn single_column_forward_shapes() {
    // one input column through the fixed topology: a 2-vector in, a scalar out
    let r = forward_dims(xor_params(), Dims { rows: 2, cols: 1 });
    assert_eq!(
        r,
        Some((Dims { rows: 2, cols: 1 }, Dims { rows: 1, cols: 1 }))
    );
}

#[test]
fn gradient_extents_match_the_parameters() {
    let x = Dims { rows: 2, cols: 4 };
    let y = Dims { rows: 1, cols: 4 };
    let a1 = Dims { rows: 2, cols: 4 };
    let yh = Dims { rows: 1, cols: 4 };
    let w1 = Dims { rows: 2, cols: 1 };
    assert_eq!(backward_dims(x, y, a1, yh, w1), Some(xor_params()));
    // hidden activations for five examples against four labels
    let bad_a1 = Dims { rows: 2, cols: 5 };
    assert_eq!(backward_dims(x, y, bad_a1, yh, w1), None);
}

#[test]
fn update_needs_matching_extents() {
    let p = xor_params();
    assert_eq!(update_dims(p, p), Some(p));
    let mut g = p;
    g.w0 = Dims { rows: 2, cols: 3 };
    assert_eq!(update_dims(p, g), None);
}

#[test]
fn epoch_keeps_the_xor_extents() {
    let p = xor_params();
    let x = Dims { rows: 2, cols: 4 };
    let y = Dims { rows: 1, cols: 4 };
    assert_eq!(epoch_dims(p, x, y), Some(p));
}

#[test]
fn mis_shaped_configurations_are_rejected() {
    let p = xor_params();
    let x = Dims { rows: 2, cols: 4 };
    let y = Dims { rows: 1, cols: 4 };
    // input with a third feature row: W0ᵗ · X does not compose
    assert_eq!(epoch_dims(p, Dims { rows: 3, cols: 4 }, y), None);
    // labels for five examples instead of four
    assert_eq!(epoch_dims(p, x, Dims { rows: 1, cols: 5 }), None);
    // a bias that is not a single column
    let mut q = p;
    q.b0 = Dims { rows: 2, cols: 2 };
    assert_eq!(epoch_dims(q, x, y), None);
    // a hidden weight matrix of the wrong height
    let mut q = p;
    q.w1 = Dims { rows: 3, cols: 1 };
    assert_eq!(epoch_dims(q, x, y), None);
}

#[test]
fn render_zero() {
    assert_eq!(render_ms(0), b"0\n".to_vec());
}

#[test]
fn render_small_value() {
    assert_eq!(render_ms(1234), b"1234\n".to_vec());
}

#[test]
fn render_largest_value() {
    assert_eq!(render_ms(u128::MAX), format!("{}\n", u128::MAX).into_bytes());
}

#[test]
fn report_bytes_are_exact() {
    assert_eq!(render_report(&vec![12u128, 0, 345]), b"12\n0\n345\n".to_vec());
}

#[test]
fn report_of_no_runs_is_empty() {
    assert_eq!(render_report(&vec![]), Vec::<u8>::new());
}

#[test]
fn report_has_one_line_per_run_in_order() {
    let runtimes: Vec<u128> = vec![31, 0, 27, 9999, 1, 42, 7, 123456789, 10, 8];
    let bytes = render_report(&runtimes);
    let text = String::from_utf8(bytes).unwrap();
    assert!(text.ends_with('\n'));
    let lines: Vec<&str> = text.lines().collect();
    assert_eq!(lines.len(), 10);
    for (line, t) in lines.iter().zip(runtimes.iter()) {
        let parsed: u128 = line.parse().unwrap();
        assert_eq!(parsed, *t);
    }
}

#[test]
fn schedule_walks_the_seed_list_then_reports() {
    let expected = vec![2u64, 10, 24, 45, 98, 120, 350, 600, 899, 1000];
    let mut sched = RunSchedule::new();
    for (i, seed) in expected.iter().enumerate() {
        assert_eq!(sched.completed_runs(), i);
        match sched.next() {
            NextStep::Train(s) => assert_eq!(s, *seed),
            NextStep::Report(_) => panic!("report before all runs finished"),
        }
        sched.record(10 * i as u128);
    }
    assert_eq!(sched.completed_runs(), 10);
    match sched.next() {
        NextStep::Train(_) => panic!("training after all runs finished"),
        NextStep::Report(bytes) => {
            let mut expected_bytes = String::new();
            for i in 0..10 {
                expected_bytes.push_str(&format!("{}\n", 10 * i));
            }
            assert_eq!(bytes, expected_bytes.into_bytes());
        }
    }
}
