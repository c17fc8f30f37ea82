use hapsi::base::Pitch;
use hapsi::chord::{Chord, Quality};
use hapsi::twelve_tet::Tone;

#[test]
fn into_class() {
    let mut chord = Chord::new("A".parse::<Tone>().unwrap(), Quality::Major7)
        .into_class()
        .into_vec()
        .into_iter();
    assert_eq!(chord.next(), Some("A".parse().unwrap()));
    assert_eq!(chord.next(), Some("Cs".parse().unwrap()));
    assert_eq!(chord.next(), Some("E".parse().unwrap()));
    assert_eq!(chord.next(), Some("Gs".parse().unwrap()));
}

#[test]
fn into_pitch_carries_octaves() {
    let root = Pitch::new("A".parse::<Tone>().unwrap(), 0);
    let c = Chord::new(root, Quality::Major).into_pitch();
    assert_eq!(*c.root(), Pitch::new("A".parse().unwrap(), 0));
    assert_eq!(c.other().get(0), Some(&Pitch::new("Cs".parse().unwrap(), 1)));
    assert_eq!(c.other().get(1), Some(&Pitch::new("E".parse().unwrap(), 1)));
}

#[test]
fn enumerate_lists_all_qualities() {
    let qualities = Quality::enumerate();
    assert_eq!(qualities.len(), 6);
    assert_eq!(qualities[0], Quality::Major);
    assert_eq!(qualities[5], Quality::Minor7);
}

#[test]
fn quality_intervals_values() {
    let iv = Quality::Minor7.intervals();
    let values: Vec<usize> = iv.iter().map(|i| i.value()).collect();
    assert_eq!(values, vec![3, 7, 11]);
    assert_eq!(iv[0].direction(), 1);
}
