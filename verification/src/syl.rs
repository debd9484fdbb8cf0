//! Syllables of toki pona: the byte-level parser, the one-byte encoding and
//! the textual form.
use vstd::prelude::*;

verus! {

/// A consonant that may open a syllable.
#[derive(Debug, Copy, Clone, PartialEq, Eq, Hash, Structural)]
pub enum Consonant {
    T,
    K,
    P,
    L,
    W,
    S,
    J,
    N,
    M,
}

/// The vowel at the core of every syllable.
#[derive(Debug, Copy, Clone, PartialEq, Eq, Hash, Structural)]
pub enum Vowel {
    A,
    E,
    I,
    O,
    U,
}

impl Consonant {
    /// The number that stands for this consonant in the high nibble of an
    /// encoded syllable (`t` is 1, ..., `m` is 9; 0 means "no consonant").
    pub open spec fn spec_code(self) -> u8 {
        match self {
            Consonant::T => 1,
            Consonant::K => 2,
            Consonant::P => 3,
            Consonant::L => 4,
            Consonant::W => 5,
            Consonant::S => 6,
            Consonant::J => 7,
            Consonant::N => 8,
            Consonant::M => 9,
        }
    }

    /// The consonant whose code is `n`, if there is one.
    pub open spec fn spec_from_code(n: u8) -> Option<Consonant> {
        if n == 1 { Some(Consonant::T) }
        else if n == 2 { Some(Consonant::K) }
        else if n == 3 { Some(Consonant::P) }
        else if n == 4 { Some(Consonant::L) }
        else if n == 5 { Some(Consonant::W) }
        else if n == 6 { Some(Consonant::S) }
        else if n == 7 { Some(Consonant::J) }
        else if n == 8 { Some(Consonant::N) }
        else if n == 9 { Some(Consonant::M) }
        else { None }
    }

    /// The code of this consonant, as `spec_code` says.
    pub fn code(self) -> (n: u8)
        ensures
            n == self.spec_code(),
    {
        match self {
            Consonant::T => 1,
            Consonant::K => 2,
            Consonant::P => 3,
            Consonant::L => 4,
            Consonant::W => 5,
            Consonant::S => 6,
            Consonant::J => 7,
            Consonant::N => 8,
            Consonant::M => 9,
        }
    }
}

impl Vowel {
    /// The number that stands for this vowel (`a` is 0, ..., `u` is 4).
    pub open spec fn spec_code(self) -> u8 {
        match self {
            Vowel::A => 0,
            Vowel::E => 1,
            Vowel::I => 2,
            Vowel::O => 3,
            Vowel::U => 4,
        }
    }

    /// The vowel whose code is `n`, if there is one.
    pub open spec fn spec_from_code(n: u8) -> Option<Vowel> {
        if n == 0 { Some(Vowel::A) }
        else if n == 1 { Some(Vowel::E) }
        else if n == 2 { Some(Vowel::I) }
        else if n == 3 { Some(Vowel::O) }
        else if n == 4 { Some(Vowel::U) }
        else { None }
    }

    /// The code of this vowel, as `spec_code` says.
    pub fn code(self) -> (n: u8)
        ensures
            n == self.spec_code(),
    {
        match self {
            Vowel::A => 0,
            Vowel::E => 1,
            Vowel::I => 2,
            Vowel::O => 3,
            Vowel::U => 4,
        }
    }
}


/// Why a syllable could not be read from text.
#[derive(Debug, Copy, Clone, PartialEq, Eq, Hash, Structural)]
pub enum SyllableParseError {
    /// Nothing that starts a syllable was found.
    EmptyString,
    /// A consonant at the given byte index was not followed by a vowel.
    NoVowel(usize),
}

/// Why a byte does not encode a syllable.
#[derive(Debug, Copy, Clone, PartialEq, Eq, Hash, Structural)]
pub enum SyllableDecodeError {
    /// The high nibble (given) names no consonant.
    InvalidConsonant(u8),
    /// Bits 1 to 3 (given) name no vowel.
    InvalidVowel(u8),
}

/// One syllable: an optional consonant, a vowel and an optional final `n`;
/// or a pause, which stands for punctuation.
#[derive(Debug, Copy, Clone, PartialEq, Eq, Hash, Structural)]
pub struct Syllable {
    pub consonant: Option<Consonant>,
    pub vowel: Vowel,
    pub nasal: bool,
    pub(crate) is_space: bool,
}

impl Syllable {
    /// The pause that punctuation stands for.
    pub open(crate) spec fn spec_space() -> Syllable {
        Syllable { is_space: true, consonant: None, vowel: Vowel::A, nasal: false }
    }

    /// The pause that punctuation stands for.
    pub fn space() -> (s: Syllable)
        ensures
            s == Syllable::spec_space(),
    {
        Syllable { is_space: true, consonant: None, vowel: Vowel::A, nasal: false }
    }

    /// Whether this syllable is the pause.
    pub open(crate) spec fn spec_is_space(self) -> bool {
        self.is_space
    }

    /// The consonant of this syllable, if any.
    pub open(crate) spec fn spec_consonant(self) -> Option<Consonant> {
        self.consonant
    }

    /// The vowel of this syllable.
    pub open(crate) spec fn spec_vowel(self) -> Vowel {
        self.vowel
    }

    /// Whether this syllable ends in `n`.
    pub open(crate) spec fn spec_nasal(self) -> bool {
        self.nasal
    }

    /// A syllable is well formed when a pause carries nothing but the pause
    /// mark: every syllable that the parser or the decoder hands out is.
    pub open(crate) spec fn wf(self) -> bool {
        self.is_space ==> self == Syllable::spec_space()
    }

    /// The byte that stands for this syllable: `0xFF` for the pause, else the
    /// consonant's code in the high nibble, the vowel's code in bits 1 to 3
    /// and the final `n` in bit 0.
    pub open(crate) spec fn spec_encode(self) -> u8 {
        if self.is_space {
            0xFF
        } else {
            let c: int = match self.consonant {
                Some(c) => c.spec_code() as int,
                None => 0,
            };
            (c * 16 + self.vowel.spec_code() * 2 + if self.nasal { 1int } else { 0int }) as u8
        }
    }

    /// What `decode` gives for `byte`.
    pub open(crate) spec fn spec_decode(byte: u8) -> Result<Syllable, SyllableDecodeError> {
        if byte == 0xFF {
            Ok(Syllable::spec_space())
        } else if byte / 16 > 9 {
            Err(SyllableDecodeError::InvalidConsonant(byte / 16))
        } else if (byte / 2) % 8 > 4 {
            Err(SyllableDecodeError::InvalidVowel((byte / 2) % 8))
        } else {
            Ok(Syllable {
                consonant: Consonant::spec_from_code(byte / 16),
                vowel: Vowel::spec_from_code((byte / 2) % 8).unwrap(),
                nasal: byte % 2 == 1,
                is_space: false,
            })
        }
    }

    /// Whether this syllable is the pause.
    pub fn is_space(&self) -> (b: bool)
        ensures
            b == self.spec_is_space(),
    {
        self.is_space
    }

    /// Encodes the syllable in one byte.
    pub fn encode(&self) -> (byte: u8)
        ensures
            byte == self.spec_encode(),
    {
        if self.is_space {
            return 0xFF;
        }
        let cons: u8 = match self.consonant {
            Some(c) => c.code(),
            None => 0,
        };
        let vow: u8 = self.vowel.code();
        let nas: u8 = if self.nasal { 1 } else { 0 };
        assert(cons << 4u8 | vow << 1u8 | nas == cons * 16 + vow * 2 + nas) by (bit_vector)
            requires
                cons <= 9,
                vow <= 4,
                nas <= 1,
        ;
        cons << 4u8 | vow << 1u8 | nas
    }

    /// Decodes a byte made by `encode`.
    pub fn decode(byte: u8) -> (res: Result<Syllable, SyllableDecodeError>)
        ensures
            res == Syllable::spec_decode(byte),
    {
        if byte == 0xFF {
            return Ok(Syllable::space());
        }
        assert((byte & 0b11110000u8) >> 4u8 == byte / 16) by (bit_vector);
        assert((byte & 0b00001110u8) >> 1u8 == (byte / 2) % 8) by (bit_vector);
        assert((byte & 0b00000001u8 != 0) == (byte % 2 == 1)) by (bit_vector);
        let consonant = match (byte & 0b11110000u8) >> 4u8 {
            0 => None,
            1 => Some(Consonant::T),
            2 => Some(Consonant::K),
            3 => Some(Consonant::P),
            4 => Some(Consonant::L),
            5 => Some(Consonant::W),
            6 => Some(Consonant::S),
            7 => Some(Consonant::J),
            8 => Some(Consonant::N),
            9 => Some(Consonant::M),
            n => return Err(SyllableDecodeError::InvalidConsonant(n)),
        };
        let vowel = match (byte & 0b00001110u8) >> 1u8 {
            0 => Vowel::A,
            1 => Vowel::E,
            2 => Vowel::I,
            3 => Vowel::O,
            4 => Vowel::U,
            n => return Err(SyllableDecodeError::InvalidVowel(n)),
        };
        let nasal = byte & 0b00000001u8 != 0;
        Ok(Syllable { consonant, vowel, nasal, is_space: false })
    }
}

/// Decoding the byte of a well-formed syllable gives the syllable back.
pub proof fn lemma_decode_encode(s: Syllable)
    requires
        s.wf(),
    ensures
        Syllable::spec_decode(s.spec_encode()) == Ok::<Syllable, SyllableDecodeError>(s),
{
    if !s.is_space {
        let c: int = match s.consonant {
            Some(c) => c.spec_code() as int,
            None => 0,
        };
        let v: int = s.vowel.spec_code() as int;
        let n: int = if s.nasal { 1 } else { 0 };
        let b: int = c * 16 + v * 2 + n;
        assert(0 <= b < 0xFF);
        assert(b / 16 == c);
        assert((b / 2) % 8 == v);
        assert(b % 2 == n);
    }
}

/// Every byte that decodes is the encoding of what it decodes to, and what
/// it decodes to is well formed.
pub proof fn lemma_encode_decode(byte: u8)
    ensures
        Syllable::spec_decode(byte) matches Ok(s) ==> s.wf() && s.spec_encode() == byte,
{
    if byte != 0xFF && byte / 16 <= 9 && (byte / 2) % 8 <= 4 {
        let s = Syllable::spec_decode(byte)->Ok_0;
        assert(byte == (byte / 16) * 16 + ((byte / 2) % 8) * 2 + byte % 2);
    }
}

/// Whether `b` is punctuation, which reads as a pause.
pub open spec fn is_punctuation(b: u8) -> bool {
    b == 0x2Eu8 || b == 0x2Cu8 || b == 0x3Au8 || b == 0x3Bu8 || b == 0x21u8 || b == 0x3Fu8  // '.' ',' ':' ';' '!' '?'
}

/// Whether `b` is ASCII whitespace (space, tab, line feed, form feed,
/// carriage return), which separates words.
pub open spec fn is_ascii_space(b: u8) -> bool {
    b == 0x20u8 || b == 0x09u8 || b == 0x0Au8 || b == 0x0Cu8 || b == 0x0Du8  // space tab line feed form feed carriage return
}

/// The consonant that the letter `b` writes, if any.
pub open spec fn consonant_of(b: u8) -> Option<Consonant> {
    if b == 0x74u8 { Some(Consonant::T) }  // 't'
    else if b == 0x6Bu8 { Some(Consonant::K) }  // 'k'
    else if b == 0x70u8 { Some(Consonant::P) }  // 'p'
    else if b == 0x6Au8 { Some(Consonant::J) }  // 'j'
    else if b == 0x77u8 { Some(Consonant::W) }  // 'w'
    else if b == 0x6Cu8 { Some(Consonant::L) }  // 'l'
    else if b == 0x73u8 { Some(Consonant::S) }  // 's'
    else if b == 0x6Eu8 { Some(Consonant::N) }  // 'n'
    else if b == 0x6Du8 { Some(Consonant::M) }  // 'm'
    else { None }
}

/// The vowel that the letter `b` writes, if any.
pub open spec fn vowel_of(b: u8) -> Option<Vowel> {
    if b == 0x61u8 { Some(Vowel::A) }  // 'a'
    else if b == 0x65u8 { Some(Vowel::E) }  // 'e'
    else if b == 0x69u8 { Some(Vowel::I) }  // 'i'
    else if b == 0x6Fu8 { Some(Vowel::O) }  // 'o'
    else if b == 0x75u8 { Some(Vowel::U) }  // 'u'
    else { None }
}

/// What reading one syllable from the front of `s` gives: the syllable and
/// how many bytes it takes, or the error. `idx` is where `s` starts in the
/// whole text; a `NoVowel` error reports it.
///
/// A punctuation mark is a pause of one byte. Otherwise an optional
/// consonant letter is followed by a vowel letter, and then by an `n` that
/// belongs to this syllable unless a vowel follows it.
pub open(crate) spec fn spec_parse(s: Seq<u8>, idx: usize) -> Result<(Syllable, int), SyllableParseError> {
    if s.len() == 0 {
        Err(SyllableParseError::EmptyString)
    } else if is_punctuation(s[0]) {
        Ok((Syllable::spec_space(), 1))
    } else {
        let c = consonant_of(s[0]);
        let vi: int = if c is Some { 1 } else { 0 };
        if vi >= s.len() {
            Err(SyllableParseError::NoVowel(idx))
        } else if vowel_of(s[vi]) is None {
            Err(if c is Some { SyllableParseError::NoVowel(idx) } else { SyllableParseError::EmptyString })
        } else {
            let k = vi + 1;
            let nasal = k < s.len() && s[k] == 0x6Eu8 && !(k + 1 < s.len() && vowel_of(s[k + 1]) is Some);  // 'n'
            Ok((
                Syllable { consonant: c, vowel: vowel_of(s[vi])->Some_0, nasal, is_space: false },
                if nasal { k + 1 } else { k },
            ))
        }
    }
}

fn consonant_letter(b: u8) -> (c: Option<Consonant>)
    ensures
        c == consonant_of(b),
{
    match b {
        0x74u8 => Some(Consonant::T),  // 't'
        0x6Bu8 => Some(Consonant::K),  // 'k'
        0x70u8 => Some(Consonant::P),  // 'p'
        0x6Au8 => Some(Consonant::J),  // 'j'
        0x77u8 => Some(Consonant::W),  // 'w'
        0x6Cu8 => Some(Consonant::L),  // 'l'
        0x73u8 => Some(Consonant::S),  // 's'
        0x6Eu8 => Some(Consonant::N),  // 'n'
        0x6Du8 => Some(Consonant::M),  // 'm'
        _ => None,
    }
}

fn vowel_letter(b: u8) -> (v: Option<Vowel>)
    ensures
        v == vowel_of(b),
{
    match b {
        0x61u8 => Some(Vowel::A),  // 'a'
        0x65u8 => Some(Vowel::E),  // 'e'
        0x69u8 => Some(Vowel::I),  // 'i'
        0x6Fu8 => Some(Vowel::O),  // 'o'
        0x75u8 => Some(Vowel::U),  // 'u'
        _ => None,
    }
}

impl Syllable {
    /// Reads one syllable from the front of `string` and moves `string` past
    /// it; on an error `string` is left as it was. `idx` is where `string`
    /// starts in the whole text.
    pub fn parse(string: &mut &[u8], idx: usize) -> (res: Result<Syllable, SyllableParseError>)
        ensures
            match spec_parse(old(string)@, idx) {
                Ok((syl, n)) => res == Ok::<Syllable, SyllableParseError>(syl) && final(string)@ == old(string)@.skip(n),
                Err(e) => res == Err::<Syllable, SyllableParseError>(e) && final(string)@ == old(string)@,
            },
    {
        let s: &[u8] = *string;
        if s.len() == 0 {
            return Err(SyllableParseError::EmptyString);
        }
        let first = s[0];
        if first == 0x2Eu8 || first == 0x2Cu8 || first == 0x3Au8 || first == 0x3Bu8 || first == 0x21u8 || first == 0x3Fu8 {  // '.' ',' ':' ';' '!' '?'
            *string = s.split_at(1).1;
            return Ok(Syllable::space());
        }
        let consonant = consonant_letter(first);
        let mut i: usize = 0;
        if consonant.is_some() {
            if s.len() < 2 {
                return Err(SyllableParseError::NoVowel(idx));
            }
            i = 1;
        }
        let vowel = match vowel_letter(s[i]) {
            Some(v) => v,
            None => {
                return Err(
                    if consonant.is_some() {
                        SyllableParseError::NoVowel(idx)
                    } else {
                        SyllableParseError::EmptyString
                    },
                );
            },
        };
        let mut k: usize = i + 1;
        let mut nasal = false;
        if k < s.len() && s[k] == 0x6Eu8 {  // 'n'
            let next_is_vowel = k + 1 < s.len() && vowel_letter(s[k + 1]).is_some();
            if !next_is_vowel {
                k = k + 1;
                nasal = true;
            }
        }
        *string = s.split_at(k).1;
        Ok(Syllable { consonant, vowel, nasal, is_space: false })
    }
}

/// The first position at or after `pos` that does not hold ASCII whitespace
/// (or the end of `s`).
pub open spec fn skip_space(s: Seq<u8>, pos: int) -> int
    decreases s.len() - pos,
{
    if 0 <= pos < s.len() && is_ascii_space(s[pos]) {
        skip_space(s, pos + 1)
    } else {
        pos
    }
}

/// What one step of the reader over `input` at position `pos` yields, and
/// the position after it. At the end there is nothing. A run of whitespace
/// yields `None` (a word break) and is passed over. Otherwise a syllable is
/// read; an error leaves the position where it was, so the same error comes
/// again at every later step.
pub open(crate) spec fn spec_step(input: Seq<u8>, pos: int) -> (Option<Option<Result<Syllable, SyllableParseError>>>, int) {
    if pos < 0 || pos >= input.len() {
        (None, pos)
    } else if is_ascii_space(input[pos]) {
        (Some(None), skip_space(input, pos))
    } else {
        match spec_parse(input.subrange(pos, input.len() as int), pos as usize) {
            Ok((syl, n)) => (Some(Some(Ok(syl))), pos + n),
            Err(e) => (Some(Some(Err(e))), pos),
        }
    }
}

/// A reader of syllables and word breaks from text, one step at a time.
pub struct Syllables<'a> {
    input: &'a [u8],
    pos: usize,
}

impl<'a> Syllables<'a> {
    #[verifier::type_invariant]
    spec fn inv(self) -> bool {
        self.pos <= self.input@.len()
    }

    /// The whole text being read.
    pub closed spec fn input(self) -> Seq<u8> {
        self.input@
    }

    /// How many bytes of the text have been read.
    pub closed spec fn pos(self) -> int {
        self.pos as int
    }

    /// Reads the next item: `None` at the end of the text, `Some(None)` for a
    /// run of whitespace, `Some(Some(..))` for a syllable or the error met.
    pub fn next(&mut self) -> (item: Option<Option<Result<Syllable, SyllableParseError>>>)
        ensures
            final(self).input() == old(self).input(),
            0 <= final(self).pos() <= final(self).input().len(),
            (item, final(self).pos()) == spec_step(old(self).input(), old(self).pos()),
    {
        proof {
            use_type_invariant(&*self);
        }
        let len = self.input.len();
        if self.pos >= len {
            return None;
        }
        if is_space_byte(self.input[self.pos]) {
            let mut p = self.pos;
            while p < len && is_space_byte(self.input[p])
                invariant
                    self.pos <= p <= len,
                    len == self.input@.len(),
                    skip_space(self.input@, p as int) == skip_space(self.input@, self.pos as int),
                decreases len - p,
            {
                p = p + 1;
            }
            self.pos = p;
            return Some(None);
        }
        let (_, rest) = self.input.split_at(self.pos);
        let mut s: &[u8] = rest;
        let res = Syllable::parse(&mut s, self.pos);
        match res {
            Ok(syl) => {
                proof {
                    let n = spec_parse(rest@, self.pos as usize)->Ok_0.1;
                    assert(s@.len() == rest@.len() - n);
                }
                self.pos = len - s.len();
                Some(Some(Ok(syl)))
            },
            Err(e) => Some(Some(Err(e))),
        }
    }
}

fn is_space_byte(b: u8) -> (r: bool)
    ensures
        r == is_ascii_space(b),
{
    b == 0x20u8 || b == 0x09u8 || b == 0x0Au8 || b == 0x0Cu8 || b == 0x0Du8  // space tab line feed form feed carriage return
}

/// Starts reading syllables from the beginning of `string`.
pub fn parse_syllables<'a>(string: &'a [u8]) -> (r: Syllables<'a>)
    ensures
        r.input() == string@,
        r.pos() == 0,
{
    Syllables { input: string, pos: 0 }
}

/// Passing over whitespace never moves backwards nor past the end.
pub proof fn lemma_skip_space_bounds(s: Seq<u8>, pos: int)
    requires
        0 <= pos <= s.len(),
    ensures
        pos <= skip_space(s, pos) <= s.len(),
        pos < s.len() && is_ascii_space(s[pos]) ==> pos < skip_space(s, pos),
    decreases s.len() - pos,
{
    if pos < s.len() && is_ascii_space(s[pos]) {
        lemma_skip_space_bounds(s, pos + 1);
    }
}

/// A step that yields a syllable or a word break moves forward and stays
/// within the text; any other step stays where it is.
pub proof fn lemma_step_advances(input: Seq<u8>, pos: int)
    requires
        0 <= pos <= input.len(),
    ensures
        ({
            let (item, next) = spec_step(input, pos);
            &&& pos <= next <= input.len()
            &&& (item matches Some(None) || item matches Some(Some(Ok(_)))) <==> pos < next
        }),
{
    if pos < input.len() && is_ascii_space(input[pos]) {
        lemma_skip_space_bounds(input, pos);
    }
}

/// What reading all of `input` from `pos` on gives, after the items `acc`
/// already read: the syllables and word breaks (`None`) in order, or the
/// first error.
pub open(crate) spec fn spec_collect(input: Seq<u8>, pos: int, acc: Seq<Option<Syllable>>) -> Result<Seq<Option<Syllable>>, SyllableParseError>
    decreases input.len() - pos,
{
    if pos < 0 || pos > input.len() {
        Ok(acc)
    } else {
        proof {
            lemma_step_advances(input, pos);
        }
        let (item, next) = spec_step(input, pos);
        match item {
            None => Ok(acc),
            Some(None) => spec_collect(input, next, acc.push(None)),
            Some(Some(Ok(syl))) => spec_collect(input, next, acc.push(Some(syl))),
            Some(Some(Err(e))) => Err(e),
        }
    }
}

/// Reads all of `string`: the syllables, with `None` for each run of
/// whitespace between them, or the first error met.
pub fn collect_syllables(string: &[u8]) -> (res: Result<Vec<Option<Syllable>>, SyllableParseError>)
    ensures
        match spec_collect(string@, 0, Seq::empty()) {
            Ok(items) => res matches Ok(v) && v@ == items,
            Err(e) => res == Err::<Vec<Option<Syllable>>, SyllableParseError>(e),
        },
{
    let mut reader = parse_syllables(string);
    let mut out: Vec<Option<Syllable>> = Vec::new();
    loop
        invariant
            reader.input() == string@,
            0 <= reader.pos() <= string@.len(),
            spec_collect(string@, 0, Seq::empty()) == spec_collect(string@, reader.pos(), out@),
        decreases string@.len() - reader.pos(),
    {
        let ghost before = reader.pos();
        proof {
            lemma_step_advances(string@, before);
        }
        match reader.next() {
            None => return Ok(out),
            Some(None) => out.push(None),
            Some(Some(Ok(syl))) => out.push(Some(syl)),
            Some(Some(Err(e))) => return Err(e),
        }
    }
}

/// After an error the reader stays where it is, so the next step meets the
/// same error again.
pub proof fn lemma_error_repeats(input: Seq<u8>, pos: int)
    ensures
        spec_step(input, pos).0 matches Some(Some(Err(_))) ==> spec_step(input, spec_step(input, pos).1) == spec_step(input, pos),
{
}

impl Consonant {
    /// The letter that writes this consonant.
    pub open spec fn spec_letter(self) -> char {
        match self {
            Consonant::T => 't',
            Consonant::K => 'k',
            Consonant::P => 'p',
            Consonant::L => 'l',
            Consonant::W => 'w',
            Consonant::S => 's',
            Consonant::J => 'j',
            Consonant::N => 'n',
            Consonant::M => 'm',
        }
    }
}

impl Vowel {
    /// The letter that writes this vowel.
    pub open spec fn spec_letter(self) -> char {
        match self {
            Vowel::A => 'a',
            Vowel::E => 'e',
            Vowel::I => 'i',
            Vowel::O => 'o',
            Vowel::U => 'u',
        }
    }
}

/// The bytes of a text made of ASCII characters.
pub open spec fn ascii_bytes(text: Seq<char>) -> Seq<u8> {
    text.map_values(|c: char| c as u8)
}

impl Syllable {
    /// How the syllable is written: `_` for the pause, else the consonant's
    /// letter (if any), the vowel's letter and `n` for a final `n`.
    pub open(crate) spec fn spec_text(self) -> Seq<char> {
        if self.is_space {
            seq!['_']
        } else {
            (match self.consonant {
                Some(c) => seq![c.spec_letter()],
                None => Seq::empty(),
            }) + seq![self.vowel.spec_letter()] + (if self.nasal { seq!['n'] } else { Seq::empty() })
        }
    }

    /// Writes the syllable as text, as `spec_text` says.
    pub fn to_string(&self) -> (text: String)
        ensures
            text@ == self.spec_text(),
    {
        let mut text = String::new();
        if self.is_space {
            text.append("_");
            proof {
                reveal_strlit("_");
            }
            return text;
        }
        match self.consonant {
            Some(c) => text.append(consonant_str(c)),
            None => {},
        }
        text.append(vowel_str(self.vowel));
        if self.nasal {
            text.append("n");
            proof {
                reveal_strlit("n");
            }
        }
        text
    }
}

fn consonant_str(c: Consonant) -> (s: &'static str)
    ensures
        s@ == seq![c.spec_letter()],
{
    proof {
        reveal_strlit("t");
        reveal_strlit("k");
        reveal_strlit("p");
        reveal_strlit("l");
        reveal_strlit("w");
        reveal_strlit("s");
        reveal_strlit("j");
        reveal_strlit("n");
        reveal_strlit("m");
    }
    match c {
        Consonant::T => "t",
        Consonant::K => "k",
        Consonant::P => "p",
        Consonant::L => "l",
        Consonant::W => "w",
        Consonant::S => "s",
        Consonant::J => "j",
        Consonant::N => "n",
        Consonant::M => "m",
    }
}

fn vowel_str(v: Vowel) -> (s: &'static str)
    ensures
        s@ == seq![v.spec_letter()],
{
    proof {
        reveal_strlit("a");
        reveal_strlit("e");
        reveal_strlit("i");
        reveal_strlit("o");
        reveal_strlit("u");
    }
    match v {
        Vowel::A => "a",
        Vowel::E => "e",
        Vowel::I => "i",
        Vowel::O => "o",
        Vowel::U => "u",
    }
}

/// Reading back the written form of a syllable that is not the pause gives
/// the syllable and takes all of the text; the pause is written `_`, which
/// does not read as a syllable.
pub proof fn lemma_parse_text(s: Syllable, idx: usize)
    requires
        s.wf(),
    ensures
        !s.spec_is_space() ==> spec_parse(ascii_bytes(s.spec_text()), idx)
            == Ok::<(Syllable, int), SyllableParseError>((s, s.spec_text().len() as int)),
        s.spec_is_space() ==> spec_parse(ascii_bytes(s.spec_text()), idx)
            == Err::<(Syllable, int), SyllableParseError>(SyllableParseError::EmptyString),
{
    let b = ascii_bytes(s.spec_text());
    if !s.is_space {
        match s.consonant {
            Some(c) => {
                assert(consonant_of(b[0]) == Some(c));
                assert(vowel_of(b[1]) == Some(s.vowel));
                if s.nasal {
                    assert(b[2] == 0x6Eu8);
                }
            },
            None => {
                assert(consonant_of(b[0]) is None);
                assert(vowel_of(b[0]) == Some(s.vowel));
                if s.nasal {
                    assert(b[1] == 0x6Eu8);
                }
            },
        }
    }
}

/// The character of the decimal or hexadecimal digit `d` (upper-case
/// letters for 10 to 15).
pub open spec fn digit_char(d: int) -> char {
    if d == 0 { '0' }
    else if d == 1 { '1' }
    else if d == 2 { '2' }
    else if d == 3 { '3' }
    else if d == 4 { '4' }
    else if d == 5 { '5' }
    else if d == 6 { '6' }
    else if d == 7 { '7' }
    else if d == 8 { '8' }
    else if d == 9 { '9' }
    else if d == 10 { 'A' }
    else if d == 11 { 'B' }
    else if d == 12 { 'C' }
    else if d == 13 { 'D' }
    else if d == 14 { 'E' }
    else { 'F' }
}

/// `n` written in decimal, without leading zeros.
pub open spec fn decimal(n: nat) -> Seq<char>
    decreases n,
{
    if n < 10 {
        seq![digit_char(n as int)]
    } else {
        decimal(n / 10) + seq![digit_char((n % 10) as int)]
    }
}

/// `n` written as two upper-case hexadecimal digits.
pub open spec fn hex_byte(n: u8) -> Seq<char> {
    seq![digit_char((n / 16) as int), digit_char((n % 16) as int)]
}

fn digit_str(d: u8) -> (s: &'static str)
    requires
        d < 16,
    ensures
        s@ == seq![digit_char(d as int)],
{
    proof {
        reveal_strlit("0");
        reveal_strlit("1");
        reveal_strlit("2");
        reveal_strlit("3");
        reveal_strlit("4");
        reveal_strlit("5");
        reveal_strlit("6");
        reveal_strlit("7");
        reveal_strlit("8");
        reveal_strlit("9");
        reveal_strlit("A");
        reveal_strlit("B");
        reveal_strlit("C");
        reveal_strlit("D");
        reveal_strlit("E");
        reveal_strlit("F");
    }
    match d {
        0 => "0",
        1 => "1",
        2 => "2",
        3 => "3",
        4 => "4",
        5 => "5",
        6 => "6",
        7 => "7",
        8 => "8",
        9 => "9",
        10 => "A",
        11 => "B",
        12 => "C",
        13 => "D",
        14 => "E",
        _ => "F",
    }
}

fn push_decimal(text: &mut String, n: usize)
    ensures
        final(text)@ == old(text)@ + decimal(n as nat),
    decreases n,
{
    if n >= 10 {
        push_decimal(text, n / 10);
    }
    text.append(digit_str((n % 10) as u8));
}

impl SyllableParseError {
    /// The message that describes the error.
    pub open spec fn spec_message(self) -> Seq<char> {
        match self {
            SyllableParseError::EmptyString => "cannot parse syllable from empty string"@,
            SyllableParseError::NoVowel(idx) => "no vowel found after consonant (index "@ + decimal(idx as nat) + ")"@,
        }
    }

    /// The message that describes the error, as `spec_message` says.
    pub fn message(&self) -> (text: String)
        ensures
            text@ == self.spec_message(),
    {
        let mut text = String::new();
        match self {
            SyllableParseError::EmptyString => text.append("cannot parse syllable from empty string"),
            SyllableParseError::NoVowel(idx) => {
                text.append("no vowel found after consonant (index ");
                push_decimal(&mut text, *idx);
                text.append(")");
            },
        }
        text
    }
}

impl SyllableDecodeError {
    /// The message that describes the error.
    pub open spec fn spec_message(self) -> Seq<char> {
        match self {
            SyllableDecodeError::InvalidConsonant(n) => "invalid consonant: "@ + hex_byte(n),
            SyllableDecodeError::InvalidVowel(n) => "invalid vowel: "@ + hex_byte(n),
        }
    }

    /// The message that describes the error, as `spec_message` says.
    pub fn message(&self) -> (text: String)
        ensures
            text@ == self.spec_message(),
    {
        let mut text = String::new();
        let n = match self {
            SyllableDecodeError::InvalidConsonant(n) => {
                text.append("invalid consonant: ");
                *n
            },
            SyllableDecodeError::InvalidVowel(n) => {
                text.append("invalid vowel: ");
                *n
            },
        };
        text.append(digit_str(n / 16));
        text.append(digit_str(n % 16));
        text
    }
}

/// Every syllable read from text is well formed and takes at least one and
/// at most three of the bytes there.
pub proof fn lemma_parse_wf(s: Seq<u8>, idx: usize)
    ensures
        spec_parse(s, idx) matches Ok((syl, n)) ==> syl.wf() && 1 <= n <= s.len() && n <= 3,
{
}

/// Two well-formed syllables with the same byte are the same syllable.
pub proof fn lemma_encode_injective(a: Syllable, b: Syllable)
    requires
        a.wf(),
        b.wf(),
        a.spec_encode() == b.spec_encode(),
    ensures
        a == b,
{
    lemma_decode_encode(a);
    lemma_decode_encode(b);
}

// The statements below say, over the accessors `spec_is_space`,
// `spec_consonant`, `spec_vowel` and `spec_nasal`, what the crate-internal
// definitions above are, for use where those definitions cannot be unfolded.

/// Two syllables are equal when all four parts are.
pub proof fn lemma_syllable_ext(a: Syllable, b: Syllable)
    ensures
        (a == b) <==> (a.spec_is_space() == b.spec_is_space() && a.spec_consonant() == b.spec_consonant()
            && a.spec_vowel() == b.spec_vowel() && a.spec_nasal() == b.spec_nasal()),
{
}

/// The pause: no consonant, vowel `a`, no final `n`, and the pause mark.
pub proof fn lemma_space_parts()
    ensures
        Syllable::spec_space().spec_is_space(),
        Syllable::spec_space().spec_consonant() is None,
        Syllable::spec_space().spec_vowel() == Vowel::A,
        !Syllable::spec_space().spec_nasal(),
{
}

/// What well formed means: a pause has no consonant, vowel `a` and no
/// final `n`.
pub proof fn lemma_wf_parts(s: Syllable)
    ensures
        s.wf() <==> (s.spec_is_space() ==> (s.spec_consonant() is None && s.spec_vowel() == Vowel::A
            && !s.spec_nasal())),
{
}

/// The byte of a syllable, by its parts.
pub proof fn lemma_encode_parts(s: Syllable)
    ensures
        s.spec_is_space() ==> s.spec_encode() == 0xFF,
        !s.spec_is_space() ==> s.spec_encode() as int == (match s.spec_consonant() {
            Some(c) => c.spec_code() as int,
            None => 0int,
        }) * 16 + s.spec_vowel().spec_code() * 2 + (if s.spec_nasal() { 1int } else { 0int }),
{
}

/// What decoding a byte gives, by the parts of the syllable.
pub proof fn lemma_decode_parts(byte: u8)
    ensures
        byte == 0xFF ==> Syllable::spec_decode(byte) == Ok::<Syllable, SyllableDecodeError>(Syllable::spec_space()),
        byte != 0xFF && byte / 16 > 9 ==> Syllable::spec_decode(byte)
            == Err::<Syllable, SyllableDecodeError>(SyllableDecodeError::InvalidConsonant(byte / 16)),
        byte != 0xFF && byte / 16 <= 9 && (byte / 2) % 8 > 4 ==> Syllable::spec_decode(byte)
            == Err::<Syllable, SyllableDecodeError>(SyllableDecodeError::InvalidVowel((byte / 2) % 8)),
        byte != 0xFF && byte / 16 <= 9 && (byte / 2) % 8 <= 4 ==> (Syllable::spec_decode(byte) matches Ok(s)
            && !s.spec_is_space()
            && s.spec_consonant() == Consonant::spec_from_code(byte / 16)
            && Some(s.spec_vowel()) == Vowel::spec_from_code((byte / 2) % 8)
            && s.spec_nasal() == (byte % 2 == 1)),
{
}

/// What reading one syllable from the front of `s` gives, by the parts of
/// the syllable: see `spec_parse`.
pub proof fn lemma_parse_parts(s: Seq<u8>, idx: usize)
    ensures
        s.len() == 0 ==> spec_parse(s, idx) == Err::<(Syllable, int), SyllableParseError>(SyllableParseError::EmptyString),
        s.len() > 0 && is_punctuation(s[0]) ==> spec_parse(s, idx)
            == Ok::<(Syllable, int), SyllableParseError>((Syllable::spec_space(), 1)),
        s.len() > 0 && !is_punctuation(s[0]) ==> ({
            let c = consonant_of(s[0]);
            let vi: int = if c is Some { 1 } else { 0 };
            &&& vi >= s.len() ==> spec_parse(s, idx)
                == Err::<(Syllable, int), SyllableParseError>(SyllableParseError::NoVowel(idx))
            &&& vi < s.len() && vowel_of(s[vi]) is None ==> spec_parse(s, idx)
                == Err::<(Syllable, int), SyllableParseError>(
                    if c is Some { SyllableParseError::NoVowel(idx) } else { SyllableParseError::EmptyString },
                )
            &&& vi < s.len() && vowel_of(s[vi]) is Some ==> ({
                let k = vi + 1;
                let nasal = k < s.len() && s[k] == 0x6Eu8 && !(k + 1 < s.len() && vowel_of(s[k + 1]) is Some);  // 'n'
                (spec_parse(s, idx) matches Ok((syl, n))
                    && !syl.spec_is_space()
                    && syl.spec_consonant() == c
                    && Some(syl.spec_vowel()) == vowel_of(s[vi])
                    && syl.spec_nasal() == nasal
                    && n == if nasal { k + 1 } else { k })
            })
        }),
{
}

/// What one step of the reader gives: see `spec_step`.
pub proof fn lemma_step_parts(input: Seq<u8>, pos: int)
    ensures
        pos < 0 || pos >= input.len() ==> spec_step(input, pos) == (None::<Option<Result<Syllable, SyllableParseError>>>, pos),
        0 <= pos < input.len() && is_ascii_space(input[pos]) ==> spec_step(input, pos)
            == (Some(None::<Result<Syllable, SyllableParseError>>), skip_space(input, pos)),
        0 <= pos < input.len() && !is_ascii_space(input[pos]) ==> match spec_parse(input.subrange(pos, input.len() as int), pos as usize) {
            Ok((syl, n)) => spec_step(input, pos) == (Some(Some(Ok::<Syllable, SyllableParseError>(syl))), pos + n),
            Err(e) => spec_step(input, pos) == (Some(Some(Err::<Syllable, SyllableParseError>(e))), pos),
        },
{
}

/// Reading all of a text, one step at a time: see `spec_collect`.
pub proof fn lemma_collect_parts(input: Seq<u8>, pos: int, acc: Seq<Option<Syllable>>)
    ensures
        pos < 0 || pos > input.len() ==> spec_collect(input, pos, acc) == Ok::<Seq<Option<Syllable>>, SyllableParseError>(acc),
        0 <= pos <= input.len() ==> match spec_step(input, pos) {
            (None, _) => spec_collect(input, pos, acc) == Ok::<Seq<Option<Syllable>>, SyllableParseError>(acc),
            (Some(None), next) => spec_collect(input, pos, acc) == spec_collect(input, next, acc.push(None)),
            (Some(Some(Ok(syl))), next) => spec_collect(input, pos, acc) == spec_collect(input, next, acc.push(Some(syl))),
            (Some(Some(Err(e))), _) => spec_collect(input, pos, acc) == Err::<Seq<Option<Syllable>>, SyllableParseError>(e),
        },
{
}

/// How a syllable is written, by its parts: see `spec_text`.
pub proof fn lemma_text_parts(s: Syllable)
    ensures
        s.spec_is_space() ==> s.spec_text() == seq!['_'],
        !s.spec_is_space() ==> s.spec_text() == (match s.spec_consonant() {
            Some(c) => seq![c.spec_letter()],
            None => Seq::<char>::empty(),
        }) + seq![s.spec_vowel().spec_letter()] + (if s.spec_nasal() { seq!['n'] } else { Seq::<char>::empty() }),
{
}

/// Punctuation reads as the pause: a text whose first byte is `.`, `,`, `:`,
/// `;`, `!` or `?` (0x2E 0x2C 0x3A 0x3B 0x21 0x3F) reads as the pause and
/// takes exactly that one byte, whatever follows; and the pause is read from
/// no other first byte.
pub proof fn lemma_punctuation_reads_as_pause(s: Seq<u8>, idx: usize)
    ensures
        s.len() > 0 && (s[0] == 0x2Eu8 || s[0] == 0x2Cu8 || s[0] == 0x3Au8 || s[0] == 0x3Bu8
            || s[0] == 0x21u8 || s[0] == 0x3Fu8) ==> spec_parse(s, idx)
            == Ok::<(Syllable, int), SyllableParseError>((Syllable::spec_space(), 1)),
        (spec_parse(s, idx) matches Ok((syl, _)) && syl.spec_is_space()) ==> (s[0] == 0x2Eu8 || s[0] == 0x2Cu8
            || s[0] == 0x3Au8 || s[0] == 0x3Bu8 || s[0] == 0x21u8 || s[0] == 0x3Fu8),
{
}

/// A reader step yields a word break exactly at ASCII whitespace: space,
/// tab, line feed, form feed or carriage return (0x20 0x09 0x0A 0x0C 0x0D).
/// The break passes over the whole run of such bytes: every byte passed over
/// is whitespace, and the reader stops at the end or at a byte that is not.
pub proof fn lemma_word_breaks_are_whitespace(input: Seq<u8>, pos: int)
    requires
        0 <= pos < input.len(),
    ensures
        (spec_step(input, pos).0 == Some(None::<Result<Syllable, SyllableParseError>>)) <==> (input[pos] == 0x20u8
            || input[pos] == 0x09u8 || input[pos] == 0x0Au8 || input[pos] == 0x0Cu8 || input[pos] == 0x0Du8),
        spec_step(input, pos).0 == Some(None::<Result<Syllable, SyllableParseError>>) ==> ({
            let next = spec_step(input, pos).1;
            &&& pos < next <= input.len()
            &&& forall|i: int| pos <= i < next ==> (#[trigger] input[i] == 0x20u8 || input[i] == 0x09u8
                || input[i] == 0x0Au8 || input[i] == 0x0Cu8 || input[i] == 0x0Du8)
            &&& next < input.len() ==> !(input[next] == 0x20u8 || input[next] == 0x09u8 || input[next] == 0x0Au8
                || input[next] == 0x0Cu8 || input[next] == 0x0Du8)
        }),
{
    lemma_skip_space_run(input, pos);
    lemma_skip_space_bounds(input, pos);
}

/// Every byte that `skip_space` passes over is whitespace, and it stops at
/// the end or at a byte that is not.
proof fn lemma_skip_space_run(s: Seq<u8>, pos: int)
    requires
        0 <= pos <= s.len(),
    ensures
        forall|i: int| pos <= i < skip_space(s, pos) ==> is_ascii_space(#[trigger] s[i]),
        skip_space(s, pos) < s.len() ==> !is_ascii_space(s[skip_space(s, pos)]),
    decreases s.len() - pos,
{
    if pos < s.len() && is_ascii_space(s[pos]) {
        lemma_skip_space_run(s, pos + 1);
    }
}

/// The consonant numbers of the one-byte encoding are fixed: no consonant is
/// 0, and `t k p l w s j n m` are 1 to 9 in that order, in the high nibble;
/// the vowels `a e i o u` are 0 to 4 in bits 1 to 3; a final `n` is bit 0.
pub proof fn lemma_encoding_numbers(s: Syllable)
    requires
        s.wf(),
        !s.spec_is_space(),
    ensures
        s.spec_encode() / 16 == match s.spec_consonant() {
            None => 0u8,
            Some(Consonant::T) => 1u8,
            Some(Consonant::K) => 2u8,
            Some(Consonant::P) => 3u8,
            Some(Consonant::L) => 4u8,
            Some(Consonant::W) => 5u8,
            Some(Consonant::S) => 6u8,
            Some(Consonant::J) => 7u8,
            Some(Consonant::N) => 8u8,
            Some(Consonant::M) => 9u8,
        },
        (s.spec_encode() / 2) % 8 == match s.spec_vowel() {
            Vowel::A => 0u8,
            Vowel::E => 1u8,
            Vowel::I => 2u8,
            Vowel::O => 3u8,
            Vowel::U => 4u8,
        },
        (s.spec_encode() % 2 == 1) == s.spec_nasal(),
{
    lemma_decode_encode(s);
}

/// Decoding reads the same fixed numbers: a byte that decodes to a syllable
/// other than the pause has the consonant numbered by its high nibble, the
/// vowel numbered by bits 1 to 3, and a final `n` when bit 0 is set.
pub proof fn lemma_decoding_numbers(byte: u8)
    ensures
        Syllable::spec_decode(byte) matches Ok(s) ==> (s.spec_is_space() <==> byte == 0xFF),
        match Syllable::spec_decode(byte) {
            Err(_) => true,
            Ok(s) => !s.spec_is_space() ==> (byte / 16 == match s.spec_consonant() {
            None => 0u8,
            Some(Consonant::T) => 1u8,
            Some(Consonant::K) => 2u8,
            Some(Consonant::P) => 3u8,
            Some(Consonant::L) => 4u8,
            Some(Consonant::W) => 5u8,
            Some(Consonant::S) => 6u8,
            Some(Consonant::J) => 7u8,
            Some(Consonant::N) => 8u8,
            Some(Consonant::M) => 9u8,
        } && (byte / 2) % 8 == match s.spec_vowel() {
            Vowel::A => 0u8,
            Vowel::E => 1u8,
            Vowel::I => 2u8,
            Vowel::O => 3u8,
            Vowel::U => 4u8,
        } && (byte % 2 == 1) == s.spec_nasal()),
        },
{
    lemma_encode_decode(byte);
    if let Ok(s) = Syllable::spec_decode(byte) {
        if !s.spec_is_space() {
            lemma_encoding_numbers(s);
        }
    }
}

/// Each consonant and vowel is written with its own lower-case letter:
/// `t k p l w s j n m` and `a e i o u`.
pub proof fn lemma_letters(c: Consonant, v: Vowel)
    ensures
        c.spec_letter() == match c {
            Consonant::T => 't',
            Consonant::K => 'k',
            Consonant::P => 'p',
            Consonant::L => 'l',
            Consonant::W => 'w',
            Consonant::S => 's',
            Consonant::J => 'j',
            Consonant::N => 'n',
            Consonant::M => 'm',
        },
        v.spec_letter() == match v {
            Vowel::A => 'a',
            Vowel::E => 'e',
            Vowel::I => 'i',
            Vowel::O => 'o',
            Vowel::U => 'u',
        },
{
}

/// A byte reads as a consonant (or a vowel) exactly when it is the letter
/// that writes it: no other byte reads as that sound.
pub proof fn lemma_letters_read_back(b: u8, c: Consonant, v: Vowel)
    ensures
        consonant_of(b) == Some(c) <==> b == c.spec_letter() as u8,
        vowel_of(b) == Some(v) <==> b == v.spec_letter() as u8,
{
}

/// The written form of a syllable that is not the pause: the letter of its
/// consonant (`t k p l w s j n m`, or nothing), the letter of its vowel
/// (`a e i o u`), then `n` for a final `n`.
pub proof fn lemma_written_letters(s: Syllable)
    requires
        !s.spec_is_space(),
    ensures
        s.spec_text() == (match s.spec_consonant() {
            None => Seq::<char>::empty(),
            Some(Consonant::T) => seq!['t'],
            Some(Consonant::K) => seq!['k'],
            Some(Consonant::P) => seq!['p'],
            Some(Consonant::L) => seq!['l'],
            Some(Consonant::W) => seq!['w'],
            Some(Consonant::S) => seq!['s'],
            Some(Consonant::J) => seq!['j'],
            Some(Consonant::N) => seq!['n'],
            Some(Consonant::M) => seq!['m'],
        }) + (match s.spec_vowel() {
            Vowel::A => seq!['a'],
            Vowel::E => seq!['e'],
            Vowel::I => seq!['i'],
            Vowel::O => seq!['o'],
            Vowel::U => seq!['u'],
        }) + (if s.spec_nasal() { seq!['n'] } else { Seq::<char>::empty() }),
{
    match s.consonant {
        Some(c) => lemma_letters(c, s.vowel),
        None => lemma_letters(Consonant::T, s.vowel),
    }
}

} // verus!
