use cqt_rs::lookup::{per_octave_keys, phase_factor_keys, read_per_octave, LookupTable};
use cqt_rs::QFactorError;

fn q_factor(bins_per_octave: usize) -> f32 {
    let freq_ratio = (2f32).powf(1.0 / (bins_per_octave as f32));
    1.0 / (freq_ratio - 1.0)
}

fn q_factor_table() -> LookupTable<usize, f32> {
    LookupTable::tabulate(&per_octave_keys(), q_factor)
}

#[test]
fn q_factor_read_through_the_table() {
    let table = q_factor_table();
    // tabulated
    assert_eq!(read_per_octave(&table, 12, q_factor).unwrap(), 16.81714);
    // computed on a miss
    assert_eq!(read_per_octave(&table, 24, q_factor).unwrap(), 34.127083);
    assert_eq!(read_per_octave(&table, 48, q_factor).unwrap(), 68.750626);
}

#[test]
fn zero_bins_per_octave_is_refused() {
    let table = q_factor_table();
    assert!(matches!(
        read_per_octave(&table, 0, q_factor),
        Err(QFactorError::InvalidBinsPerOctave)
    ));
    assert_eq!(
        QFactorError::InvalidBinsPerOctave.message(),
        "Invalid bins per octave: must be a positive integer"
    );
}

#[test]
fn hits_and_misses_agree() {
    let table = q_factor_table();
    for b in 1..=12usize {
        let cached = *table.get(&b).unwrap();
        assert_eq!(cached.to_bits(), q_factor(b).to_bits());
        assert_eq!(table.read_through(b, q_factor).to_bits(), q_factor(b).to_bits());
    }
    assert!(table.get(&13).is_none());
    assert!(table.get(&0).is_none());
}

#[test]
fn a_hit_does_not_call_the_function() {
    let table = LookupTable::tabulate(&vec![1usize, 2, 3], |k: usize| k * 10);
    assert_eq!(table.read_through(2, |_k: usize| 0), 20);
    assert_eq!(table.read_through(4, |k: usize| k + 1), 5);
}

#[test]
fn repeated_keys_are_stored_once() {
    let table = LookupTable::tabulate(&vec![5usize, 5, 7], |k: usize| k * 2);
    assert_eq!(table.get(&5), Some(&10));
    assert_eq!(table.get(&7), Some(&14));
    assert_eq!(table.get(&6), None);
}

#[test]
fn per_octave_keys_are_one_to_twelve() {
    assert_eq!(per_octave_keys(), (1..=12).collect::<Vec<usize>>());
}

#[test]
fn phase_factor_keys_cover_every_pair() {
    let keys = phase_factor_keys();
    assert_eq!(keys.len(), 20);
    assert_eq!(keys[0], (256, 16000));
    assert_eq!(keys[3], (256, 48000));
    assert_eq!(keys[4], (512, 16000));
    assert_eq!(keys[19], (4096, 48000));
    let table = LookupTable::tabulate(&keys, |(w, s): (usize, usize)| w + s);
    assert_eq!(table.get(&(4096, 44100)), Some(&48196));
    assert_eq!(table.get(&(4096, 44101)), None);
}
