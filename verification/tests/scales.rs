use hapsi::base::Keyboard;
use hapsi::scale::{diatonic, pentatonic, Diatonic, Pentatonic};
use hapsi::twelve_tet::AccidentalSymbol::Natural;
use hapsi::twelve_tet::Tone;
use hapsi::twelve_tet::ToneSymbol::{A, B, C, D, E, F, G};

#[test]
fn diatonic_major() {
    let scaled = Diatonic::major(&Tone::new(C, Natural));
    let keyboard = Keyboard::new(scaled);
    let mut tones = keyboard.class_iter();
    assert_eq!(tones.next(), Some(Tone::new(C, Natural)));
    assert_eq!(tones.next(), Some(Tone::new(D, Natural)));
    assert_eq!(tones.next(), Some(Tone::new(E, Natural)));
    assert_eq!(tones.next(), Some(Tone::new(F, Natural)));
    assert_eq!(tones.next(), Some(Tone::new(G, Natural)));
    assert_eq!(tones.next(), Some(Tone::new(A, Natural)));
    assert_eq!(tones.next(), Some(Tone::new(B, Natural)));
    assert_eq!(tones.next(), None);
}

#[test]
fn diatonic_minor() {
    let scaled = Diatonic::minor(&Tone::new(A, Natural));
    let keyboard = Keyboard::new(scaled);
    let mut tones = keyboard.class_iter();
    assert_eq!(tones.next(), Some(Tone::new(A, Natural)));
    assert_eq!(tones.next(), Some(Tone::new(B, Natural)));
    assert_eq!(tones.next(), Some(Tone::new(C, Natural)));
    assert_eq!(tones.next(), Some(Tone::new(D, Natural)));
    assert_eq!(tones.next(), Some(Tone::new(E, Natural)));
    assert_eq!(tones.next(), Some(Tone::new(F, Natural)));
    assert_eq!(tones.next(), Some(Tone::new(G, Natural)));
    assert_eq!(tones.next(), None);
}

#[test]
fn pentatonic_major() {
    let scaled = Pentatonic::major(&Tone::new(C, Natural));
    let keyboard = Keyboard::new(scaled);
    let mut tones = keyboard.class_iter();
    assert_eq!(tones.next(), Some(Tone::new(C, Natural)));
    assert_eq!(tones.next(), Some(Tone::new(D, Natural)));
    assert_eq!(tones.next(), Some(Tone::new(E, Natural)));
    assert_eq!(tones.next(), Some(Tone::new(G, Natural)));
    assert_eq!(tones.next(), Some(Tone::new(A, Natural)));
    assert_eq!(tones.next(), None);
}

#[test]
fn pentatonic_minor() {
    let scaled = Pentatonic::minor(&Tone::new(A, Natural));
    let keyboard = Keyboard::new(scaled);
    let mut tones = keyboard.class_iter();
    assert_eq!(tones.next(), Some(Tone::new(A, Natural)));
    assert_eq!(tones.next(), Some(Tone::new(C, Natural)));
    assert_eq!(tones.next(), Some(Tone::new(D, Natural)));
    assert_eq!(tones.next(), Some(Tone::new(E, Natural)));
    assert_eq!(tones.next(), Some(Tone::new(G, Natural)));
    assert_eq!(tones.next(), None);
}

#[test]
fn diatonic_and_pentatonic_quality() {
    let major = Diatonic::major(&Tone::new(C, Natural));
    assert_eq!(major.scaler().quality(), diatonic::Quality::Major);
    let minor = Pentatonic::minor(&Tone::new(A, Natural));
    assert_eq!(minor.scaler().quality(), pentatonic::Quality::Minor);
}
