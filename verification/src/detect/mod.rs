//! Detection: the best-matching scale for a set of tones, and the chord a
//! set of tones forms over a scale.

mod chord;
mod scale;

pub use chord::{detect_chord, spec_detected_degrees};
pub use scale::{
    detect_scale, spec_major_distances, spec_major_member, spec_major_score, spec_scaled_member,
    spec_scaled_score, Detect,
};
