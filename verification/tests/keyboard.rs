use hapsi::base::{Degree, Distance, Keyboard, Octave, Pitch, Scaled};

#[test]
fn get_class() {
    let oct = vec![0, 1, 2, 3, 4, 5];
    let key = Keyboard::new(oct);
    assert_eq!(key.get_class(&0_usize), 0);
    assert_eq!(key.get_class(&6_usize), 0);
}

#[test]
fn get_pitch() {
    let oct = vec![0, 1, 2, 3, 4, 5];
    let key = Keyboard::new(oct);
    assert_eq!(key.get_pitch(&0_usize), Pitch::new(0, 0));
    assert_eq!(key.get_pitch(&6_usize), Pitch::new(0, 1));
}

#[test]
fn scaler() {
    let oct = vec![0, 1, 2, 3, 4, 5];
    let scaler = vec![0, 2, 4];
    let key = Keyboard::new(Scaled::new(scaler, oct));
    assert_eq!(key.get_class(&0_usize), 0);
    assert_eq!(key.get_class(&1_usize), 2);
    assert_eq!(key.get_class(&2_usize), 4);
    assert_eq!(key.get_class(&3_usize), 0);
}

#[test]
fn scaler_get_number() {
    let oct = vec![0, 1, 2, 3, 4, 5];
    let scaler = vec![0, 2, 4];
    let scaled = Scaled::new(scaler, oct);
    assert_eq!(scaled.get_number(&4), Some(2));
    assert_eq!(scaled.get_number(&5), None);
}

#[test]
fn scaler_iter() {
    let oct = vec![0, 1, 2, 3, 4, 5];
    let scaler = vec![0, 2, 4];
    let binding = Scaled::new(scaler, oct);
    let mut scaled = binding.iter();
    assert_eq!(scaled.next(), Some(0));
    assert_eq!(scaled.next(), Some(2));
    assert_eq!(scaled.next(), Some(4));
    assert_eq!(scaled.next(), None);
}

#[test]
fn measure_degree() {
    let oct = vec![0, 1, 2, 3, 4, 5];
    let scaler = vec![0, 2, 4];
    let key = Keyboard::new(Scaled::new(scaler, oct));
    assert_eq!(
        key.measure(&Pitch::new(0, 0), &Pitch::new(0, 0)),
        Some(Degree::new(1).unwrap())
    );
    assert_eq!(
        key.measure(&Pitch::new(0, 0), &Pitch::new(2, 0)),
        Some(Degree::new(2).unwrap())
    );
    assert_eq!(
        key.measure(&Pitch::new(0, 0), &Pitch::new(0, 1)),
        Some(Degree::new(4).unwrap())
    );
    assert_eq!(key.measure(&Pitch::new(0, 0), &Pitch::new(1, 1)), None);
}

#[test]
fn measure_backward_is_absent() {
    let oct = vec![0, 1, 2, 3, 4, 5];
    let scaler = vec![0, 2, 4];
    let key = Keyboard::new(Scaled::new(scaler, oct));
    assert_eq!(key.measure(&Pitch::new(0, 1), &Pitch::new(0, 0)), None);
}

#[test]
fn keyboard_as_number() {
    let oct = vec![0, 1, 2, 3, 4, 5];
    let key = Keyboard::new(oct);
    assert_eq!(key.as_number(&Pitch::new(3, 2)), Some(15));
    assert_eq!(key.as_number(&Pitch::new(9, 0)), None);
}
