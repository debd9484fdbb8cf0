use ilo_toki::{
    collect_syllables, parse_syllables, Consonant, Syllable, SyllableDecodeError, SyllableParseError,
    Vowel,
};

#[test]
fn test_encode_decode() {
    for c in 0..=9u8 {
        for v in 0..=4u8 {
            for n in 0..=1u8 {
                let byte = (c << 4) | (v << 1) | n;
                let syl = Syllable::decode(byte).unwrap();
                println!("{}", syl.to_string());
                assert_eq!(syl.consonant.map_or(0, |x| x.code()), c);
                assert_eq!(syl.vowel as u8, v);
                assert_eq!(syl.nasal as u8, n);
                assert_eq!(syl.encode(), byte);
            }
        }
    }
}

fn syl(consonant: Option<Consonant>, vowel: Vowel, nasal: bool) -> Syllable {
    let mut s = Syllable::decode(0).unwrap();
    s.consonant = consonant;
    s.vowel = vowel;
    s.nasal = nasal;
    s
}

#[test]
fn decode_space_and_errors() {
    let space = Syllable::decode(0xFF).unwrap();
    assert_eq!(space, Syllable::space());
    assert!(space.is_space());
    assert_eq!(space.encode(), 0xFF);
    assert_eq!(Syllable::decode(0xA0), Err(SyllableDecodeError::InvalidConsonant(10)));
    assert_eq!(Syllable::decode(0xF0), Err(SyllableDecodeError::InvalidConsonant(15)));
    assert_eq!(Syllable::decode(0x0A), Err(SyllableDecodeError::InvalidVowel(5)));
    assert_eq!(Syllable::decode(0x9F), Err(SyllableDecodeError::InvalidVowel(7)));
    assert_eq!(Syllable::decode(0x89), Ok(syl(Some(Consonant::N), Vowel::U, true)));
}

#[test]
fn decode_every_byte_round_trips() {
    for b in 0..=255u8 {
        if let Ok(s) = Syllable::decode(b) {
            assert_eq!(s.encode(), b);
        }
    }
}

#[test]
fn parse_single_syllables() {
    let mut s: &[u8] = b"tan";
    assert_eq!(Syllable::parse(&mut s, 0), Ok(syl(Some(Consonant::T), Vowel::A, true)));
    assert_eq!(s, b"");

    let mut s: &[u8] = b"tana";
    assert_eq!(Syllable::parse(&mut s, 0), Ok(syl(Some(Consonant::T), Vowel::A, false)));
    assert_eq!(s, b"na");

    let mut s: &[u8] = b"ann";
    assert_eq!(Syllable::parse(&mut s, 0), Ok(syl(None, Vowel::A, true)));
    assert_eq!(s, b"n");

    let mut s: &[u8] = b"!x";
    assert_eq!(Syllable::parse(&mut s, 0), Ok(Syllable::space()));
    assert_eq!(s, b"x");
}

#[test]
fn parse_errors_leave_input() {
    let mut s: &[u8] = b"";
    assert_eq!(Syllable::parse(&mut s, 3), Err(SyllableParseError::EmptyString));
    let mut s: &[u8] = b"t";
    assert_eq!(Syllable::parse(&mut s, 3), Err(SyllableParseError::NoVowel(3)));
    assert_eq!(s, b"t");
    let mut s: &[u8] = b"tx";
    assert_eq!(Syllable::parse(&mut s, 7), Err(SyllableParseError::NoVowel(7)));
    assert_eq!(s, b"tx");
    let mut s: &[u8] = b"x";
    assert_eq!(Syllable::parse(&mut s, 7), Err(SyllableParseError::EmptyString));
    assert_eq!(s, b"x");
}

#[test]
fn reader_steps() {
    let mut r = parse_syllables(b"toki  pona.");
    assert_eq!(r.next(), Some(Some(Ok(syl(Some(Consonant::T), Vowel::O, false)))));
    assert_eq!(r.next(), Some(Some(Ok(syl(Some(Consonant::K), Vowel::I, false)))));
    assert_eq!(r.next(), Some(None));
    assert_eq!(r.next(), Some(Some(Ok(syl(Some(Consonant::P), Vowel::O, false)))));
    assert_eq!(r.next(), Some(Some(Ok(syl(Some(Consonant::N), Vowel::A, false)))));
    assert_eq!(r.next(), Some(Some(Ok(Syllable::space()))));
    assert_eq!(r.next(), None);
    assert_eq!(r.next(), None);
}

#[test]
fn reader_repeats_error() {
    let mut r = parse_syllables(b"ma tx");
    assert_eq!(r.next(), Some(Some(Ok(syl(Some(Consonant::M), Vowel::A, false)))));
    assert_eq!(r.next(), Some(None));
    for _ in 0..3 {
        assert_eq!(r.next(), Some(Some(Err(SyllableParseError::NoVowel(3)))));
    }
}

#[test]
fn collect_whole_text() {
    let items = collect_syllables(b"jan lili\n").unwrap();
    assert_eq!(
        items,
        vec![
            Some(syl(Some(Consonant::J), Vowel::A, true)),
            None,
            Some(syl(Some(Consonant::L), Vowel::I, false)),
            Some(syl(Some(Consonant::L), Vowel::I, false)),
            None,
        ]
    );
    assert_eq!(collect_syllables(b""), Ok(vec![]));
    assert_eq!(collect_syllables(b"mi X"), Err(SyllableParseError::EmptyString));
    assert_eq!(collect_syllables(b"mi k"), Err(SyllableParseError::NoVowel(3)));
}

#[test]
fn written_forms() {
    assert_eq!(syl(Some(Consonant::S), Vowel::I, true).to_string(), "sin");
    assert_eq!(syl(None, Vowel::E, false).to_string(), "e");
    assert_eq!(Syllable::space().to_string(), "_");
    for b in 0..=0xFEu8 {
        if let Ok(s) = Syllable::decode(b) {
            let text = s.to_string();
            let mut rest: &[u8] = text.as_bytes();
            assert_eq!(Syllable::parse(&mut rest, 0), Ok(s));
            assert!(rest.is_empty());
        }
    }
}

#[test]
fn error_messages() {
    assert_eq!(SyllableParseError::EmptyString.message(), "cannot parse syllable from empty string");
    assert_eq!(SyllableParseError::NoVowel(0).message(), "no vowel found after consonant (index 0)");
    assert_eq!(SyllableParseError::NoVowel(1234).message(), "no vowel found after consonant (index 1234)");
    assert_eq!(SyllableDecodeError::InvalidConsonant(10).message(), "invalid consonant: 0A");
    assert_eq!(SyllableDecodeError::InvalidVowel(7).message(), "invalid vowel: 07");
}

#[test]
fn distinct_syllables_encode_distinctly() {
    let mut seen = std::collections::HashSet::new();
    for b in 0..=255u8 {
        if let Ok(s) = Syllable::decode(b) {
            assert!(seen.insert(s.encode()));
        }
    }
    assert_eq!(seen.len(), 10 * 5 * 2 + 1);
}
