use hapsi::tonality::AccidentalSymbol::{Flat, Natural, Sharp};
use hapsi::tonality::Pitch;
use hapsi::tonality::Tone;
use hapsi::tonality::ToneSymbol;
use hapsi::tonality::ToneSymbol::{A, B, C, D, E, F, G};

#[test]
fn transpose() {
    assert_eq!(C.transpose(1), D);
    assert_eq!(C.transpose(7), C);
    assert_eq!(C.transpose(-1), B);
    assert_eq!(C.transpose(-7), C);
    assert_eq!(C.transpose(0), C);
}

#[test]
fn order() {
    assert!(Tone::new(C, Natural) < Tone::new(D, Natural));
    assert!(Tone::new(D, Flat) < Tone::new(D, Natural));
    assert!(Tone::new(C, Sharp) < Tone::new(D, Natural));
}

#[test]
fn eq() {
    assert!(Tone::new(C, Natural) == Tone::new(C, Natural));
    assert!(Tone::new(C, Natural) != Tone::new(D, Natural));
    assert!(Tone::new(D, Flat) == Tone::new(C, Sharp));
}

#[test]
fn tone_transpose() {
    assert_eq!(Tone::new(C, Natural).transpose(1), Tone::new(C, Sharp));
    assert_eq!(Tone::new(C, Natural).transpose(12), Tone::new(C, Natural));
    assert_eq!(Tone::new(C, Natural).transpose(-1), Tone::new(B, Natural));
    assert_eq!(Tone::new(C, Natural).transpose(-12), Tone::new(C, Natural));
    assert_eq!(Tone::new(C, Natural).transpose(0), Tone::new(C, Natural));
}

#[test]
fn into_iter() {
    let mut tone = Tone::new(A, Natural).into_iter();
    assert_eq!(tone.next(), Some(Tone::new(A, Natural)));
    assert_eq!(tone.next(), Some(Tone::new(A, Sharp)));
    assert_eq!(tone.next(), Some(Tone::new(B, Natural)));
    assert_eq!(tone.next(), Some(Tone::new(C, Natural)));
    assert_eq!(tone.next(), Some(Tone::new(C, Sharp)));
    assert_eq!(tone.next(), Some(Tone::new(D, Natural)));
    assert_eq!(tone.next(), Some(Tone::new(D, Sharp)));
    assert_eq!(tone.next(), Some(Tone::new(E, Natural)));
    assert_eq!(tone.next(), Some(Tone::new(F, Natural)));
    assert_eq!(tone.next(), Some(Tone::new(F, Sharp)));
    assert_eq!(tone.next(), Some(Tone::new(G, Natural)));
    assert_eq!(tone.next(), Some(Tone::new(G, Sharp)));
    assert_eq!(tone.next(), None);
}

#[test]
fn accidental_respelling() {
    assert_eq!(Tone::new(C, Sharp).into_accidental_flat(), Tone::new(D, Flat));
    assert_eq!(Tone::new(C, Natural).into_accidental_flat(), Tone::new(C, Natural));
    assert_eq!(Tone::new(D, Flat).into_accidental_sharp(), Tone::new(C, Sharp));
    assert_eq!(Tone::new(C, Natural).into_accidental_sharp(), Tone::new(C, Natural));
    assert_eq!(Tone::new(A, Sharp).flip_accidential(), Tone::new(B, Flat));
    assert_eq!(Tone::new(B, Flat).flip_accidential(), Tone::new(A, Sharp));
    assert_eq!(Tone::new(G, Natural).flip_accidential(), Tone::new(G, Natural));
}

#[test]
fn tone_from_index_table() {
    assert_eq!(Tone::from(0), Tone::new(C, Natural));
    assert_eq!(Tone::from(1), Tone::new(C, Sharp));
    assert_eq!(Tone::from(10), Tone::new(A, Sharp));
    assert_eq!(Tone::from(11), Tone::new(B, Natural));
    assert_eq!(Tone::from(25), Tone::new(C, Sharp));
    assert_eq!(ToneSymbol::from(1), D);
    assert_eq!(ToneSymbol::from(8), D);
}

#[test]
fn tonality_normalizes_specials() {
    assert_eq!(Tone::new(C, Flat), Tone::new(B, Natural));
    assert_eq!(Tone::new(E, Sharp), Tone::new(F, Natural));
    assert_eq!(Tone::new(F, Flat), Tone::new(E, Natural));
    assert_eq!(Tone::new(B, Sharp), Tone::new(C, Natural));
}
