use logreg::error::TrainError;
use logreg::trainer::{Trainer, LOG_PERIOD, TOTAL_ITERATIONS};

#[test]
fn step_installs_update_and_counts() {
    let mut t = Trainer::new(2, 2, 2, vec![10, 20]).unwrap();
    let emit = t.step(vec![11, 21]).unwrap();
    assert!(emit, "the very first iteration reports its loss");
    assert_eq!(t.iteration(), 1);
    assert_eq!(t.weights().as_slice(), &[11, 21]);
    let emit2 = t.step(vec![12, 22]).unwrap();
    assert!(!emit2);
    assert_eq!(t.iteration(), 2);
    assert_eq!(t.weights().as_slice(), &[12, 22]);
}

#[test]
fn mismatched_update_is_rejected_and_state_kept() {
    let mut t = Trainer::new(3, 2, 3, vec![5, 6]).unwrap();
    t.step(vec![7, 8]).unwrap();
    let r = t.step(vec![9]);
    assert_eq!(r, Err(TrainError::DimMismatch { expected: 2, got: 1 }));
    assert_eq!(t.iteration(), 1);
    assert_eq!(t.weights().as_slice(), &[7, 8]);
}

#[test]
fn run_reports_every_hundredth_iteration() {
    let mut t = Trainer::new(1, 1, 1, vec![0]).unwrap();
    let mut reported: Vec<usize> = Vec::new();
    while !t.is_done() {
        let i: usize = t.iteration();
        let emit = t.step(vec![i as u64]).unwrap();
        if emit {
            reported.push(i);
        }
    }
    assert_eq!(t.iteration(), TOTAL_ITERATIONS);
    assert_eq!(reported.len(), 10);
    for (k, i) in reported.iter().enumerate() {
        assert_eq!(*i, k * LOG_PERIOD);
    }
    // The final weights are the last accepted update.
    assert_eq!(t.into_weights(), vec![999]);
}
