//! Decomposition and recomposition of precomposed Hangul syllables, together
//! with a verified liaison ("jongseong pushdown") transform over character
//! streams: when a syllable carrying a final consonant is followed by a
//! syllable whose initial consonant is the silent placeholder, the final
//! consonant moves into that initial position.

pub mod pushdown;
pub mod syllable;

pub use pushdown::{
    lemma_extended_only_rieul_hieuh, lemma_transform_preserves_shape, pushdown_jongseong,
    pushdown_jongseong_config, rule_lookup, transform_seq,
};
pub use syllable::{
    lemma_compose_round_trip, lemma_syllable_round_trip, Choseong, Error, Jongseong, Jungseong,
    Syllable,
};
