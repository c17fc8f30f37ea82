use hapsi::tonality::scale::{
    MajorPentatonicScaleWalker, MajorScaleWalker, MinorPentatonicScaleWalker, MinorScaleWalker,
};
use hapsi::tonality::AccidentalSymbol::{Natural, Sharp};
use hapsi::tonality::Tone;
use hapsi::tonality::ToneSymbol::{A, B, C, D, E, F, G};
use hapsi::tonality::{Degree, IntoScaler, MajorScale, MinorScale, Scale, Scaler};

#[test]
fn major_scale_works_correctly() {
    let mut scale = MajorScale::new(&Tone::new(C, Natural)).into_scaler();
    assert_eq!(scale.next(), Some(Tone::new(C, Natural)));
    assert_eq!(scale.next(), Some(Tone::new(D, Natural)));
    assert_eq!(scale.next(), Some(Tone::new(E, Natural)));
    assert_eq!(scale.next(), Some(Tone::new(F, Natural)));
    assert_eq!(scale.next(), Some(Tone::new(G, Natural)));
    assert_eq!(scale.next(), Some(Tone::new(A, Natural)));
    assert_eq!(scale.next(), Some(Tone::new(B, Natural)));
    assert_eq!(scale.next(), None);
}

#[test]
fn minor_scale_works_correctly() {
    let mut scale = MinorScale::new(&Tone::new(A, Natural)).into_scaler();
    assert_eq!(scale.next(), Some(Tone::new(A, Natural)));
    assert_eq!(scale.next(), Some(Tone::new(B, Natural)));
    assert_eq!(scale.next(), Some(Tone::new(C, Natural)));
    assert_eq!(scale.next(), Some(Tone::new(D, Natural)));
    assert_eq!(scale.next(), Some(Tone::new(E, Natural)));
    assert_eq!(scale.next(), Some(Tone::new(F, Natural)));
    assert_eq!(scale.next(), Some(Tone::new(G, Natural)));
    assert_eq!(scale.next(), None);
}

struct RandomScale(Tone);

impl Scale for RandomScale {
    fn spec_tonic(&self) -> Tone {
        unreachable!()
    }

    fn spec_on_scale(&self, _: Tone) -> bool {
        unreachable!()
    }

    fn tonic(&self) -> &Tone {
        &self.0
    }

    fn is_on_scale(&self, _: &Tone) -> bool {
        true
    }
}

#[test]
fn get_interval() {
    let c: Scaler<RandomScale> = RandomScale(Tone::new(C, Natural)).into_scaler();
    assert_eq!(c.get_interval(Tone::new(C, Natural)), Some(Degree::new(1).unwrap()));
    assert_eq!(c.get_interval(Tone::new(B, Natural)), Some(Degree::new(12).unwrap()));
}

#[test]
fn tonality_degree_rejects_zero() {
    assert!(Degree::new(0).is_err());
    assert!(Degree::new(1).is_ok());
}

#[test]
fn scales_follow_modular_distances() {
    let major = MajorScale::new(&Tone::new(A, Natural));
    assert!(major.is_on_scale(&Tone::new(C, Sharp)));
    assert!(!major.is_on_scale(&Tone::new(C, Natural)));
    let minor = MinorScale::new(&Tone::new(D, Natural));
    assert!(minor.is_on_scale(&Tone::new(F, Natural)));
    assert!(!minor.is_on_scale(&Tone::new(F, Sharp)));
}

#[test]
fn major_scale_walker_walks_correctly() {
    let mut walker = MajorScaleWalker::default();
    assert_eq!(walker.next().unwrap(), 2);
    assert_eq!(walker.next().unwrap(), 2);
    assert_eq!(walker.next().unwrap(), 1);
    assert_eq!(walker.next().unwrap(), 2);
    assert_eq!(walker.next().unwrap(), 2);
    assert_eq!(walker.next().unwrap(), 2);
    assert_eq!(walker.next().unwrap(), 1);
    assert_eq!(walker.next(), None);
}

#[test]
fn minor_scale_walker_works_correctly() {
    let mut walker = MinorScaleWalker::default();
    assert_eq!(walker.next().unwrap(), 2);
    assert_eq!(walker.next().unwrap(), 1);
    assert_eq!(walker.next().unwrap(), 2);
    assert_eq!(walker.next().unwrap(), 2);
    assert_eq!(walker.next().unwrap(), 1);
    assert_eq!(walker.next().unwrap(), 2);
    assert_eq!(walker.next().unwrap(), 2);
    assert_eq!(walker.next(), None);
}

#[test]
fn major_pentatonic_scale_walker_walks_correctly() {
    let mut walker = MajorPentatonicScaleWalker::default();
    assert_eq!(walker.next().unwrap(), 2);
    assert_eq!(walker.next().unwrap(), 2);
    assert_eq!(walker.next().unwrap(), 3);
    assert_eq!(walker.next().unwrap(), 2);
    assert_eq!(walker.next().unwrap(), 2);
    assert_eq!(walker.next(), None);
}

#[test]
fn minor_pentatonic_scale_walker_walks_correctly() {
    let mut walker = MinorPentatonicScaleWalker::default();
    assert_eq!(walker.next().unwrap(), 3);
    assert_eq!(walker.next().unwrap(), 2);
    assert_eq!(walker.next().unwrap(), 2);
    assert_eq!(walker.next().unwrap(), 3);
    assert_eq!(walker.next().unwrap(), 2);
    assert_eq!(walker.next(), None);
}
