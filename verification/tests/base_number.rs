use hapsi::base::{Cycle, Degree, Number, Pitch};

#[test]
fn cycle_wraps_and_reports() {
    let mut c = Cycle::new(7, 5);
    assert_eq!(c.value(), 2);
    assert!(c.has_cycled());
    let mut d = Cycle::new(0, 5);
    assert!(!d.has_cycled());
    d.increment(3);
    assert_eq!(d.value(), 3);
    d.increment(4);
    assert_eq!(d.value(), 2);
    assert!(d.has_cycled());
    c.increment(1);
    assert_eq!(c.value(), 3);
}

#[test]
fn numbers_report_their_position() {
    assert_eq!(Number::value(&7_u8), 7);
    assert_eq!(Number::value(&7_usize), 7);
    let degree = Degree::new(3).unwrap();
    assert_eq!(Number::value(&degree), 2);
    assert_eq!(degree.value(), 3);
}

#[test]
fn pitch_parts() {
    let p = Pitch::new(4_usize, 2);
    assert_eq!(*p.class(), 4);
    assert_eq!(p.oct(), 2);
    let r = p.as_ref();
    assert_eq!(**r.class(), 4);
    assert_eq!(r.oct(), 2);
}
