//! Parsing, encoding and sound planning for toki pona syllables.
pub mod plan;
pub mod rng;
pub mod segment;
pub mod syl;
pub mod wav;

pub use plan::{sound_sequence, Sound};
pub use rng::RandomState;
pub use syl::{
    collect_syllables, parse_syllables, Consonant, Syllable, SyllableDecodeError, SyllableParseError,
    Syllables, Vowel,
};
pub use wav::{wav_file_header, wav_stream_header};
