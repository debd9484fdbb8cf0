use ilo_toki::segment::{Consonant as SegConsonant, SoundSegmentKind, Vowel as SegVowel};
use ilo_toki::{
    collect_syllables, sound_sequence, wav_file_header, wav_stream_header, Consonant, RandomState,
    Sound, Vowel,
};

#[test]
fn sounds_of_text() {
    let items = collect_syllables(b"pan a. ").unwrap();
    let sounds = sound_sequence(&items);
    assert_eq!(
        sounds,
        vec![
            Sound::Consonant(Consonant::P),
            Sound::Vowel(Vowel::A),
            Sound::Consonant(Consonant::N),
            Sound::Space,
            Sound::Vowel(Vowel::A),
            Sound::Space,
            Sound::Space,
            Sound::Space,
            Sound::Space,
        ]
    );
    assert_eq!(sound_sequence(&[]), vec![]);
}

#[test]
fn random_sequence_from_fixed_seed() {
    let mut r = RandomState::fixed();
    assert_eq!(r.next(), 0xa974a5af);
    assert_eq!(r.next(), 0xb36b4749);
    assert_eq!(r.next(), 0xbaff793d);
    let mut d = RandomState::default();
    assert_eq!(d.next(), 0xa974a5af);
}

#[test]
fn file_header_layout() {
    let h = wav_file_header(44100, 6);
    let mut expected = Vec::new();
    expected.extend_from_slice(b"RIFF");
    expected.extend_from_slice(&50u32.to_le_bytes());
    expected.extend_from_slice(b"WAVEfmt ");
    expected.extend_from_slice(&16u32.to_le_bytes());
    expected.extend_from_slice(&1u16.to_le_bytes());
    expected.extend_from_slice(&1u16.to_le_bytes());
    expected.extend_from_slice(&44100u32.to_le_bytes());
    expected.extend_from_slice(&88200u32.to_le_bytes());
    expected.extend_from_slice(&2u16.to_le_bytes());
    expected.extend_from_slice(&16u16.to_le_bytes());
    expected.extend_from_slice(b"data");
    expected.extend_from_slice(&6u32.to_le_bytes());
    assert_eq!(h, expected);
}

#[test]
fn stream_header_layout() {
    let expected: [u8; 44] = [
        0x52, 0x49, 0x46, 0x46, 0xFF, 0xFF, 0xFF, 0xFF,
        0x57, 0x41, 0x56, 0x45, 0x66, 0x6D, 0x74, 0x20,
        0x10, 0x00, 0x00, 0x00, 0x01, 0x00, 0x01, 0x00,
        0x44, 0xAC, 0x00, 0x00, 0x88, 0x58, 0x01, 0x00,
        0x02, 0x00, 0x10, 0x00, 0x64, 0x61, 0x74, 0x61,
        0xFF, 0xFF, 0xFF, 0xFF,
    ];
    assert_eq!(wav_stream_header(44100), expected.to_vec());
    let h = wav_stream_header(0x8000_0001);
    assert_eq!(&h[28..32], &2u32.to_le_bytes());
}

#[test]
fn segment_kind_names() {
    assert_eq!(SoundSegmentKind::Vowel(SegVowel::O).to_string(), "o");
    assert_eq!(SoundSegmentKind::Consonant(SegConsonant::W).to_string(), "w");
    assert_eq!(SoundSegmentKind::Space.to_string(), "Space");
    assert_eq!(SegConsonant::T as u8, 0);
}

#[test]
fn sounds_of_concatenation() {
    let a = collect_syllables(b"mun").unwrap();
    let b = collect_syllables(b" o!").unwrap();
    let mut ab = a.clone();
    ab.extend_from_slice(&b);
    let mut expected = sound_sequence(&a);
    expected.extend(sound_sequence(&b));
    assert_eq!(sound_sequence(&ab), expected);
}

#[test]
fn header_fields_read_back() {
    let h = wav_file_header(8000, 1000);
    let read = |at: usize| u32::from_le_bytes([h[at], h[at + 1], h[at + 2], h[at + 3]]);
    assert_eq!(h.len(), 44);
    assert_eq!(read(4), 1044);
    assert_eq!(read(24), 8000);
    assert_eq!(read(28), 16000);
    assert_eq!(read(40), 1000);
}
