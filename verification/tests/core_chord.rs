use hapsi::base::{Chord, Degree, Keyboard, Pitch};
use hapsi::scale::Diatonic;
use hapsi::twelve_tet::Tone;

#[test]
fn to_pitch() {
    let scaled = Diatonic::minor(&"A".parse().unwrap());
    let keyboard = Keyboard::new(scaled);
    let chord = Chord::<Degree>::new(
        Degree::new(1).unwrap(),
        vec![Degree::new(3).unwrap(), Degree::new(5).unwrap()],
    );
    let c = chord.to_pitch(&keyboard);
    assert_eq!(*c.root(), Pitch::new("A".parse().unwrap(), 0));
    assert_eq!(c.other().get(0), Some(&Pitch::new("C".parse().unwrap(), 0)));
    assert_eq!(c.other().get(1), Some(&Pitch::new("E".parse().unwrap(), 0)));
}

#[test]
fn to_degree() {
    let scaled = Diatonic::minor(&"A".parse().unwrap());
    let keyboard = Keyboard::new(scaled);
    let chord = Chord::<Pitch<Tone>>::new(
        Pitch::new("A".parse().unwrap(), 0),
        vec![
            Pitch::new("C".parse().unwrap(), 1),
            Pitch::new("E".parse().unwrap(), 1),
        ],
    );
    let c = chord.to_degree(&keyboard).unwrap();
    assert_eq!(*c.root(), Degree::new(1).unwrap());
    assert_eq!(c.other().get(0), Some(&Degree::new(3).unwrap()));
    assert_eq!(c.other().get(1), Some(&Degree::new(5).unwrap()));
}

#[test]
fn to_degree_off_scale_is_absent() {
    let scaled = Diatonic::minor(&"A".parse().unwrap());
    let keyboard = Keyboard::new(scaled);
    let chord = Chord::<Pitch<Tone>>::new(
        Pitch::new("A".parse().unwrap(), 0),
        vec![Pitch::new("As".parse().unwrap(), 0)],
    );
    assert!(chord.to_degree(&keyboard).is_none());
}

#[test]
fn chord_into_vec_keeps_order() {
    let chord = Chord::new(1_u32, vec![3, 5]);
    assert_eq!(chord.into_vec(), vec![1, 3, 5]);
}
