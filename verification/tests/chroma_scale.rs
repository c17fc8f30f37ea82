use hapsi::base::{Degree, DegreeConstructError, Interval};
use hapsi::chord::{avoid_tones, chord_tones};
use hapsi::base::Chord;
use hapsi::chroma::{Chroma, ChromaError, Tone};
use hapsi::scale::{Scale, ScaleError};
use hapsi::twelve_tet::AccidentalSymbol::{Flat, Natural, Sharp};
use hapsi::twelve_tet::Tone as SpeltTone;
use hapsi::twelve_tet::ToneSymbol::{B, C, E, F, G};

fn twelve() -> Chroma {
    Chroma::new(12).unwrap()
}

fn class(step: usize) -> Tone {
    Tone::from_step(step, 12).unwrap()
}

fn c_major() -> Scale {
    Scale::new(class(0), vec![0, 2, 4, 5, 7, 9, 11], twelve()).unwrap()
}

fn a_minor() -> Scale {
    Scale::new(class(9), vec![0, 2, 3, 5, 7, 8, 10], twelve()).unwrap()
}

#[test]
fn chroma_rejects_size_zero() {
    assert_eq!(Chroma::new(0).unwrap_err(), ChromaError::ZeroSize);
    assert_eq!(Tone::from_step(3, 0).unwrap_err(), ChromaError::ZeroSize);
    assert_eq!(Chroma::new(12).unwrap().size(), 12);
}

#[test]
fn tone_at_wraps_cyclically() {
    let chroma = twelve();
    assert_eq!(chroma.tone_at(5).step(), 5);
    assert_eq!(chroma.tone_at(5 + 2 * 12).step(), 5);
    assert_eq!(chroma.tone_at(5 - 3 * 12).step(), 5);
    assert_eq!(chroma.tone_at(-1).step(), 11);
    assert_eq!(chroma.tone_at(12).step(), 0);
}

#[test]
fn transpose_wraps_both_ways() {
    let t = class(0);
    assert_eq!(t.transpose(-1).step(), 11);
    assert_eq!(t.transpose(13).step(), 1);
    assert_eq!(t.transpose(0), t);
}

#[test]
fn distance_is_forward_and_bounded() {
    let chroma = twelve();
    let a = class(9);
    let b = class(2);
    let d1 = chroma.distance(&a, &b);
    let d2 = chroma.distance(&b, &a);
    assert_eq!(d1, 5);
    assert_eq!(d2, 7);
    assert!(d1 < 12);
    assert!(d2 < 12);
    assert_eq!(chroma.distance(&a, &a), 0);
}

#[test]
fn enharmonic_normalization() {
    assert_eq!(SpeltTone::new(C, Flat), SpeltTone::new(B, Natural));
    assert_eq!(SpeltTone::new(E, Sharp), SpeltTone::new(F, Natural));
    assert_eq!(SpeltTone::new(F, Flat), SpeltTone::new(E, Natural));
    assert_eq!(SpeltTone::new(B, Sharp), SpeltTone::new(C, Natural));
}

#[test]
fn major_scale_from_c() {
    let scale = c_major();
    let tones = scale.tones();
    let steps: Vec<usize> = tones.iter().map(|t| t.step()).collect();
    assert_eq!(steps, vec![0, 2, 4, 5, 7, 9, 11]);
    let g = class(SpeltTone::new(G, Natural).step());
    let degree = scale.degree_for_tone(&g).unwrap();
    assert_eq!(degree.value(), 5);
}

#[test]
fn degree_round_trip() {
    let scale = c_major();
    for step in 0..12 {
        let t = class(step);
        if let Some(d) = scale.degree_for_tone(&t) {
            assert_eq!(scale.tone_for_degree(&d), t);
        }
    }
}

#[test]
fn degree_wraparound() {
    let scale = c_major();
    let first = scale.tone_for_degree(&Degree::new(1).unwrap());
    let eighth = scale.tone_for_degree(&Degree::new(8).unwrap());
    assert_eq!(first.step(), eighth.step());
}

#[test]
fn membership_matches_formula() {
    let scale = c_major();
    assert!(scale.is_member(&class(4)));
    assert!(!scale.is_member(&class(6)));
}

#[test]
fn minor_chord_tones_from_a() {
    let scale = a_minor();
    let chord = Chord::new(
        Degree::new(1).unwrap(),
        vec![Degree::new(3).unwrap(), Degree::new(5).unwrap()],
    );
    let tones = chord_tones(&scale, &chord);
    let steps: Vec<usize> = tones.iter().map(|t| t.step()).collect();
    assert_eq!(steps, vec![9, 0, 4]);
}

#[test]
fn avoid_tones_of_minor_triad() {
    let scale = a_minor();
    let chord = Chord::new(
        Degree::new(1).unwrap(),
        vec![Degree::new(3).unwrap(), Degree::new(5).unwrap()],
    );
    let avoid = avoid_tones(&scale, &chord);
    let steps: Vec<usize> = avoid.iter().map(|t| t.step()).collect();
    assert_eq!(steps, vec![11, 5]);
}

#[test]
fn avoid_tones_deduplicate() {
    let scale = c_major();
    let chord = Chord::new(Degree::new(1).unwrap(), vec![Degree::new(1).unwrap()]);
    let avoid = avoid_tones(&scale, &chord);
    let steps: Vec<usize> = avoid.iter().map(|t| t.step()).collect();
    assert_eq!(steps, vec![11]);
}

#[test]
fn degree_rejects_non_positive() {
    assert_eq!(Degree::new(0).unwrap_err(), DegreeConstructError);
    assert_eq!(Degree::new(1).unwrap().value(), 1);
}

#[test]
fn scale_construction_errors() {
    let chroma = twelve();
    let seven = Tone::from_step(0, 7).unwrap();
    assert_eq!(
        Scale::new(seven, vec![0, 2], chroma).unwrap_err(),
        ScaleError::KeyMismatch
    );
    assert_eq!(
        Scale::new(class(0), vec![], chroma).unwrap_err(),
        ScaleError::EmptyFormula
    );
    assert_eq!(
        Scale::new(class(0), vec![1, 2], chroma).unwrap_err(),
        ScaleError::NonZeroHead
    );
    assert_eq!(
        Scale::new(class(0), vec![0, 12], chroma).unwrap_err(),
        ScaleError::EntryOutOfRange
    );
}

#[test]
fn interval_value_and_direction() {
    let up = Interval::new(3, 7);
    assert_eq!(up.value(), 4);
    assert_eq!(up.direction(), 1);
    let down = Interval::new(7, 3);
    assert_eq!(down.value(), 4);
    assert_eq!(down.direction(), -1);
    let flat = Interval::new(5, 5);
    assert_eq!(flat.value(), 0);
    assert_eq!(flat.direction(), 0);
}

#[test]
fn spelt_tone_steps() {
    assert_eq!(SpeltTone::new(C, Natural).step(), 0);
    assert_eq!(SpeltTone::new(C, Sharp).step(), 1);
    assert_eq!(SpeltTone::new(B, Natural).step(), 11);
    assert_eq!(SpeltTone::new(C, Flat).step(), 11);
}
