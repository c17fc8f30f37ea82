//! Parsing of textual note names into symbolic tones.

mod tone;

pub use tone::{
    parse_accidental, parse_tone, parse_tone_symbol, spec_accidental_of, spec_letter_of,
    spec_parse_accidental, spec_parse_tone_parts, spec_parse_tone_symbol, ParseToneError,
};
