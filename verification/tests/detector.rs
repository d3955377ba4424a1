use anomaly_grid_py::detector::Detector;
use anomaly_grid_py::errors::ErrorKind;

fn seqs(rows: &[&[&str]]) -> Vec<Vec<String>> {
    rows.iter().map(|r| r.iter().map(|s| s.to_string()).collect()).collect()
}

fn fitted_detector() -> (Detector, Vec<Vec<String>>) {
    let mut d = Detector::new(Some(2)).unwrap();
    let data = seqs(&[&["a", "b", "a", "b"], &["a", "a", "a", "a"]]);
    d.fit(&data).unwrap();
    (d, data)
}

#[test]
fn construct_with_zero_order_is_config_error() {
    let r = Detector::new(Some(0));
    assert!(r.is_err());
    let e = r.err().unwrap();
    assert_eq!(e.kind(), ErrorKind::Config);
    assert!(e.message().contains("max_order"));
}

#[test]
fn construct_default_order_succeeds() {
    assert!(Detector::new(None).is_ok());
    assert!(Detector::new(Some(1)).is_ok());
    assert!(Detector::new(Some(5)).is_ok());
}

#[test]
fn fresh_detector_always_not_fitted() {
    let d = Detector::new(None).unwrap();
    let valid = seqs(&[&["x"]]);
    let invalid: Vec<Vec<String>> = Vec::new();
    assert_eq!(d.predict_proba(&valid).err().unwrap().kind(), ErrorKind::NotFitted);
    assert_eq!(d.predict_proba(&invalid).err().unwrap().kind(), ErrorKind::NotFitted);
    assert_eq!(d.predict(&valid, None).err().unwrap().kind(), ErrorKind::NotFitted);
    assert_eq!(
        d.predict(&invalid, Some((0.5f64).to_bits())).err().unwrap().kind(),
        ErrorKind::NotFitted
    );
    assert_eq!(d.get_metrics().err().unwrap().kind(), ErrorKind::NotFitted);
}

#[test]
fn predict_proba_on_unfitted_single_sequence() {
    let d = Detector::new(None).unwrap();
    let r = d.predict_proba(&seqs(&[&["x"]]));
    assert_eq!(r.err().unwrap().kind(), ErrorKind::NotFitted);
}

#[test]
fn fit_then_predict_proba_aligns_with_input() {
    let (d, data) = fitted_detector();
    let scores = d.predict_proba(&data).unwrap();
    assert_eq!(scores.len(), 2);
    for bits in scores {
        let score = f64::from_bits(bits);
        assert!(score >= 0.0);
        assert!(score <= 1.0);
        assert!(score.is_finite());
    }
}

#[test]
fn fit_with_empty_collection_is_validation_error() {
    let mut d = Detector::new(Some(2)).unwrap();
    let empty: Vec<Vec<String>> = Vec::new();
    let r = d.fit(&empty);
    assert_eq!(r.err().unwrap().kind(), ErrorKind::Validation);
}

#[test]
fn failed_fit_keeps_previous_model_usable() {
    let (mut d, data) = fitted_detector();
    let before = d.predict_proba(&data).unwrap();
    let empty: Vec<Vec<String>> = Vec::new();
    assert_eq!(d.fit(&empty).err().unwrap().kind(), ErrorKind::Validation);
    let too_short = seqs(&[&["a"]]);
    assert_eq!(d.fit(&too_short).err().unwrap().kind(), ErrorKind::Training);
    let after = d.predict_proba(&data).unwrap();
    assert_eq!(before, after);
    assert!(d.get_metrics().is_ok());
}

#[test]
fn training_failure_is_training_error() {
    let mut d = Detector::new(Some(3)).unwrap();
    let too_short = seqs(&[&["lone"]]);
    let r = d.fit(&too_short);
    assert_eq!(r.err().unwrap().kind(), ErrorKind::Training);
    assert_eq!(
        d.predict_proba(&too_short).err().unwrap().kind(),
        ErrorKind::NotFitted
    );
}

#[test]
fn predict_matches_thresholded_probabilities() {
    let (d, _) = fitted_detector();
    let probe = seqs(&[&["a", "b", "a", "b"], &["b", "b", "b", "b"], &["a", "a", "b", "a"]]);
    let scores = d.predict_proba(&probe).unwrap();
    for t in [0.0f64, 0.01, 0.1, 0.5, 0.99] {
        let preds = d.predict(&probe, Some(t.to_bits())).unwrap();
        assert_eq!(preds.len(), scores.len());
        for (p, bits) in preds.iter().zip(scores.iter()) {
            assert_eq!(*p, f64::from_bits(*bits) >= t);
        }
    }
}

#[test]
fn default_threshold_is_one_tenth() {
    let (d, _) = fitted_detector();
    let probe = seqs(&[&["a", "b", "a", "b"], &["b", "a", "b", "b"]]);
    let implicit = d.predict(&probe, None).unwrap();
    let explicit = d.predict(&probe, Some((0.1f64).to_bits())).unwrap();
    assert_eq!(implicit, explicit);
}

#[test]
fn predict_with_empty_collection_is_validation_error() {
    let (d, _) = fitted_detector();
    let empty: Vec<Vec<String>> = Vec::new();
    assert_eq!(d.predict_proba(&empty).err().unwrap().kind(), ErrorKind::Validation);
    assert_eq!(d.predict(&empty, None).err().unwrap().kind(), ErrorKind::Validation);
}

#[test]
fn integer_symbols_round_trip_through_strings() {
    let mut d = Detector::new(Some(3)).unwrap();
    let data: Vec<Vec<String>> =
        vec![vec![1u32, 2, 3].into_iter().map(|n| n.to_string()).collect()];
    d.fit(&data).unwrap();
    let scores = d.predict_proba(&data).unwrap();
    assert_eq!(scores.len(), 1);
    let preds = d.predict(&data, Some((0.05f64).to_bits())).unwrap();
    assert_eq!(preds.len(), 1);
    assert_eq!(preds[0], f64::from_bits(scores[0]) >= 0.05);
}

#[test]
fn one_symbol_alphabet_never_yields_a_negative_zero_score() {
    // A window of fully expected symbols can give the engine a surprise
    // of exactly zero, whose sign is not pinned down; the library must
    // hand back the positive-zero pattern so the unsigned score order
    // matches the numeric one.
    let mut d = Detector::new(Some(2)).unwrap();
    let data = seqs(&[&["a", "a"]]);
    d.fit(&data).unwrap();
    let scores = d.predict_proba(&data).unwrap();
    assert_eq!(scores.len(), 1);
    let s = f64::from_bits(scores[0]);
    assert!(s >= 0.0);
    assert!(s.is_sign_positive());
    for t in [0.0f64, 0.5, 1.0] {
        let preds = d.predict(&data, Some(t.to_bits())).unwrap();
        assert_eq!(preds[0], s >= t);
    }
}

#[test]
fn metrics_after_fit_are_non_negative() {
    let (mut d, _) = fitted_detector();
    let m = d.get_metrics().unwrap();
    assert!(m.context_count > 0);
    let larger = seqs(&[&["a", "b", "c", "a", "b", "c", "a", "b"]]);
    d.fit(&larger).unwrap();
    let m2 = d.get_metrics().unwrap();
    assert!(m2.context_count > 0);
    assert!(m2.memory_bytes > 0);
    // The counters are unsigned, so a float reading of the training time
    // is non-negative by construction.
    assert!(m.training_time_ms as f64 >= 0.0);
    assert!(m.memory_bytes as f64 >= 0.0);
}
