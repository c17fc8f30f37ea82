use hapsi::parse::ParseToneError;
use hapsi::twelve_tet::{AccidentalSymbol, Tone, ToneSymbol};

#[test]
fn parse_tone_symbol() {
    assert_eq!("a".parse(), Ok(ToneSymbol::A));
    assert_eq!("ab".parse::<ToneSymbol>(), Err(ParseToneError::InvalidTone));
    assert_eq!("".parse::<ToneSymbol>(), Err(ParseToneError::InvalidTone));
}

#[test]
fn parse_accidential() {
    assert_eq!("♯".parse(), Ok(AccidentalSymbol::Sharp));
    assert_eq!("s".parse(), Ok(AccidentalSymbol::Sharp));
    assert_eq!("♭".parse(), Ok(AccidentalSymbol::Flat));
    assert_eq!("f".parse(), Ok(AccidentalSymbol::Flat));
    assert_eq!("♮".parse(), Ok(AccidentalSymbol::Natural));
    assert_eq!("".parse(), Ok(AccidentalSymbol::Natural));
    assert_eq!(
        "ab".parse::<AccidentalSymbol>(),
        Err(ParseToneError::InvalidAccidential)
    );
    assert_eq!(
        "a".parse::<AccidentalSymbol>(),
        Err(ParseToneError::InvalidAccidential)
    );
}

#[test]
fn parse_tone() {
    assert_eq!(
        "A".parse::<Tone>(),
        Ok(Tone::new(ToneSymbol::A, AccidentalSymbol::Natural))
    );
    assert_eq!(
        "A♯".parse::<Tone>(),
        Ok(Tone::new(ToneSymbol::A, AccidentalSymbol::Sharp))
    );
}

#[test]
fn parse_tone_rejects_bad_names() {
    assert_eq!("".parse::<Tone>(), Err(ParseToneError::InvalidTone));
    assert_eq!("h".parse::<Tone>(), Err(ParseToneError::InvalidTone));
    assert_eq!("ax".parse::<Tone>(), Err(ParseToneError::InvalidAccidential));
    assert_eq!("ass".parse::<Tone>(), Err(ParseToneError::InvalidAccidential));
}

#[test]
fn parse_tone_normalizes() {
    assert_eq!(
        "Bs".parse::<Tone>(),
        Ok(Tone::new(ToneSymbol::C, AccidentalSymbol::Natural))
    );
    assert_eq!(
        "cf".parse::<Tone>(),
        Ok(Tone::new(ToneSymbol::B, AccidentalSymbol::Natural))
    );
}
