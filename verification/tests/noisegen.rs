// The noise-driven sampler lives outside the verified library (its
// values are floating point); these tests exercise the same pipeline
// the application runs, and feed its pitches into the library.

use noise::{NoiseFn, Perlin};
use ocariner::table::OcTable;

fn generate_perlin(size: usize) -> Vec<f64> {
    let perlin = Perlin::new(Perlin::DEFAULT_SEED);
    let ran_y: f64 = rand::random();
    let mut values: Vec<f64> = Vec::with_capacity(size);
    for i in 0..size {
        values.push(perlin.get([(i as f64) * 0.3, ran_y]));
    }
    values
}

fn pitches_from(samples: &[f64]) -> Vec<u8> {
    samples.iter().map(|&v| ((v + 1f64) * 6.5f64) as u8).collect()
}

#[test]
fn generate_10_perlin_value() {
    let perlins = generate_perlin(10);
    assert_eq!(perlins.len(), 10);
}

#[test]
fn generate_34_perlin_value() {
    let perlins = generate_perlin(34);
    assert_ne!(perlins.len(), 10);
}

#[test]
fn generate_perlin_in_valid_range() {
    let perlins = generate_perlin(24);
    assert!(perlins.iter().all(|&v| (-1f64..=1f64).contains(&v)));
}

#[test]
fn generate_16_notes() {
    let mut oc = OcTable::new(600);
    oc.generate_notes(pitches_from(&generate_perlin(16)));
    assert!(oc.notes.iter().all(|&v| v < 13u8));
    assert_eq!(oc.notes.len(), 16)
}

#[test]
fn pitch_13_is_reachable_at_the_sample_ceiling() {
    // The mapping floor((v + 1) * 6.5) sends the nominal ceiling v = 1
    // to 13, one past the top staff region row 12; the library takes
    // such a sequence without complaint.
    let pitches = pitches_from(&[1.0; 16]);
    assert!(pitches.iter().all(|&p| p == 13));
    let mut oc = OcTable::new(600);
    oc.generate_notes(pitches);
    assert!(oc.render().is_ok());
}
