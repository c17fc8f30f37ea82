//! Parsing of note names such as "A", "Bf", or "C♯".
//!
//! A name is one letter (any case) followed by an optional accidental mark:
//! `♯` or `s` for sharp, `♭` or `f` for flat, `♮` or nothing for natural.
//! The parsed spelling normalizes like any other constructed tone.

use vstd::prelude::*;
use vstd::string::StrSliceExecFns;

use crate::twelve_tet::{
    spec_normal_accidental, spec_normal_tone, AccidentalSymbol, Tone, ToneSymbol,
};

verus! {

/// Why a note name could not be parsed.
#[derive(Debug, Clone, Copy, PartialEq, Eq, Structural)]
pub enum ParseToneError {
    /// The name does not start with a letter from a to g.
    InvalidTone,
    /// What follows the letter is not an accidental mark.
    InvalidAccidential,
}

/// The note letter a character names, in either case.
pub open spec fn spec_letter_of(c: char) -> Option<ToneSymbol> {
    if c == 'a' || c == 'A' {
        Some(ToneSymbol::A)
    } else if c == 'b' || c == 'B' {
        Some(ToneSymbol::B)
    } else if c == 'c' || c == 'C' {
        Some(ToneSymbol::C)
    } else if c == 'd' || c == 'D' {
        Some(ToneSymbol::D)
    } else if c == 'e' || c == 'E' {
        Some(ToneSymbol::E)
    } else if c == 'f' || c == 'F' {
        Some(ToneSymbol::F)
    } else if c == 'g' || c == 'G' {
        Some(ToneSymbol::G)
    } else {
        None
    }
}

/// The accidental a character names: the accidental signs, or `s` and `f`
/// in either case as plain-text stand-ins.
pub open spec fn spec_accidental_of(c: char) -> Option<AccidentalSymbol> {
    if c == '\u{266f}' || c == 's' || c == 'S' {
        Some(AccidentalSymbol::Sharp)
    } else if c == '\u{266d}' || c == 'f' || c == 'F' {
        Some(AccidentalSymbol::Flat)
    } else if c == '\u{266e}' {
        Some(AccidentalSymbol::Natural)
    } else {
        None
    }
}

/// What parsing a whole string as a letter yields: exactly one character,
/// and that a letter.
pub open spec fn spec_parse_tone_symbol(s: Seq<char>) -> Result<ToneSymbol, ParseToneError> {
    if s.len() == 1 && spec_letter_of(s[0]) is Some {
        Ok(spec_letter_of(s[0])->Some_0)
    } else {
        Err(ParseToneError::InvalidTone)
    }
}

/// What parsing a whole string as an accidental yields: nothing means
/// natural, one accidental character names itself, anything else fails.
pub open spec fn spec_parse_accidental(s: Seq<char>) -> Result<AccidentalSymbol, ParseToneError> {
    if s.len() == 0 {
        Ok(AccidentalSymbol::Natural)
    } else if s.len() == 1 && spec_accidental_of(s[0]) is Some {
        Ok(spec_accidental_of(s[0])->Some_0)
    } else {
        Err(ParseToneError::InvalidAccidential)
    }
}

/// What parsing a note name yields before normalization: the letter named by
/// the first character and the accidental named by the rest. A missing or
/// wrong letter fails first; then a wrong accidental.
pub open spec fn spec_parse_tone_parts(s: Seq<char>) -> Result<
    (ToneSymbol, AccidentalSymbol),
    ParseToneError,
> {
    if s.len() == 0 || spec_letter_of(s[0]) is None {
        Err(ParseToneError::InvalidTone)
    } else {
        match spec_parse_accidental(s.subrange(1, s.len() as int)) {
            Ok(a) => Ok((spec_letter_of(s[0])->Some_0, a)),
            Err(e) => Err(e),
        }
    }
}

/// The note letter a character names, in either case.
fn letter_of(c: char) -> (r: Option<ToneSymbol>)
    ensures
        r == spec_letter_of(c),
{
    match c {
        'a' | 'A' => Some(ToneSymbol::A),
        'b' | 'B' => Some(ToneSymbol::B),
        'c' | 'C' => Some(ToneSymbol::C),
        'd' | 'D' => Some(ToneSymbol::D),
        'e' | 'E' => Some(ToneSymbol::E),
        'f' | 'F' => Some(ToneSymbol::F),
        'g' | 'G' => Some(ToneSymbol::G),
        _ => None,
    }
}

/// The accidental a character names.
fn accidental_of(c: char) -> (r: Option<AccidentalSymbol>)
    ensures
        r == spec_accidental_of(c),
{
    match c {
        '\u{266f}' | 's' | 'S' => Some(AccidentalSymbol::Sharp),
        '\u{266d}' | 'f' | 'F' => Some(AccidentalSymbol::Flat),
        '\u{266e}' => Some(AccidentalSymbol::Natural),
        _ => None,
    }
}

/// Parses a whole string as a note letter: one character from a to g, in
/// either case.
pub fn parse_tone_symbol(s: &str) -> (r: Result<ToneSymbol, ParseToneError>)
    ensures
        r == spec_parse_tone_symbol(s@),
{
    let n = s.unicode_len();
    if n != 1 {
        return Err(ParseToneError::InvalidTone);
    }
    match letter_of(s.get_char(0)) {
        Some(l) => Ok(l),
        None => Err(ParseToneError::InvalidTone),
    }
}

/// Parses a whole string as an accidental: empty means natural, one
/// accidental character names itself.
pub fn parse_accidental(s: &str) -> (r: Result<AccidentalSymbol, ParseToneError>)
    ensures
        r == spec_parse_accidental(s@),
{
    let n = s.unicode_len();
    if n == 0 {
        return Ok(AccidentalSymbol::Natural);
    }
    if n != 1 {
        return Err(ParseToneError::InvalidAccidential);
    }
    match accidental_of(s.get_char(0)) {
        Some(a) => Ok(a),
        None => Err(ParseToneError::InvalidAccidential),
    }
}

/// Parses a note name: a letter followed by an optional accidental, the
/// result normalized as by `Tone::new`.
pub fn parse_tone(s: &str) -> (r: Result<Tone, ParseToneError>)
    ensures
        match (r, spec_parse_tone_parts(s@)) {
            (Ok(t), Ok(parts)) => t.spec_tone() == spec_normal_tone(parts.0, parts.1)
                && t.spec_accidental() == spec_normal_accidental(parts.0, parts.1),
            (Err(e1), Err(e2)) => e1 == e2,
            _ => false,
        },
{
    let n = s.unicode_len();
    if n == 0 {
        return Err(ParseToneError::InvalidTone);
    }
    let letter = match letter_of(s.get_char(0)) {
        Some(l) => l,
        None => {
            return Err(ParseToneError::InvalidTone);
        },
    };
    let ghost rest = s@.subrange(1, s@.len() as int);
    let accidental = if n == 1 {
        proof {
            assert(rest.len() == 0);
        }
        AccidentalSymbol::Natural
    } else if n == 2 {
        proof {
            assert(rest.len() == 1 && rest[0] == s@[1]);
        }
        match accidental_of(s.get_char(1)) {
            Some(a) => a,
            None => {
                return Err(ParseToneError::InvalidAccidential);
            },
        }
    } else {
        proof {
            assert(rest.len() >= 2);
        }
        return Err(ParseToneError::InvalidAccidential);
    };
    Ok(Tone::new(letter, accidental))
}

impl core::str::FromStr for Tone {
    type Err = ParseToneError;

    /// Parses a note name as `parse_tone` does.
    fn from_str(s: &str) -> Result<Tone, ParseToneError> {
        parse_tone(s)
    }
}

impl core::str::FromStr for ToneSymbol {
    type Err = ParseToneError;

    /// Parses a note letter as `parse_tone_symbol` does.
    fn from_str(s: &str) -> Result<ToneSymbol, ParseToneError> {
        parse_tone_symbol(s)
    }
}

impl core::str::FromStr for AccidentalSymbol {
    type Err = ParseToneError;

    /// Parses an accidental as `parse_accidental` does.
    fn from_str(s: &str) -> Result<AccidentalSymbol, ParseToneError> {
        parse_accidental(s)
    }
}

} // verus!
