use hapsi::base::Degree;
use hapsi::chroma::{Chroma, Tone as PitchClass};
use hapsi::detect::{detect_chord, detect_scale};
use hapsi::scale::{Diatonic, Scale};
use hapsi::twelve_tet::AccidentalSymbol::Natural;
use hapsi::twelve_tet::Tone;
use hapsi::twelve_tet::ToneSymbol::{A, B, C, D, E, F, G};

#[test]
fn detect() {
    let tones = vec![
        Tone::new(C, Natural),
        Tone::new(D, Natural),
        Tone::new(E, Natural),
        Tone::new(F, Natural),
        Tone::new(G, Natural),
        Tone::new(A, Natural),
        Tone::new(B, Natural),
    ];
    let scale = detect_scale(tones.as_slice());
    assert_eq!(scale, Diatonic::major(&Tone::new(C, Natural)))
}

fn class(step: usize) -> PitchClass {
    PitchClass::from_step(step, 12).unwrap()
}

#[test]
fn detect_chord_collects_degrees() {
    let chroma = Chroma::new(12).unwrap();
    let scale = Scale::new(class(0), vec![0, 2, 4, 5, 7, 9, 11], chroma).unwrap();
    let tones = vec![class(0), class(1), class(7)];
    let chord = detect_chord(&scale, tones.as_slice()).unwrap();
    assert_eq!(chord.root().value(), 1);
    assert_eq!(chord.other().len(), 1);
    assert_eq!(chord.other()[0], Degree::new(5).unwrap());
}

#[test]
fn detect_chord_without_members_is_absent() {
    let chroma = Chroma::new(12).unwrap();
    let scale = Scale::new(class(0), vec![0, 2, 4, 5, 7, 9, 11], chroma).unwrap();
    let tones = vec![class(1), class(3)];
    assert!(detect_chord(&scale, tones.as_slice()).is_none());
}
