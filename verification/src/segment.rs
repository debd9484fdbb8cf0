//! The sound names of the segment-based synthesizer: a segment is a vowel,
//! a consonant or a pause, each written with one letter (or `Space`).
use vstd::prelude::*;

verus! {

/// A consonant sound.
#[derive(Debug, Copy, Clone, PartialEq, Eq, Hash, Structural)]
pub enum Consonant {
    T,
    K,
    P,
    L,
    W,
    S,
    J,
    N,
    M,
}

/// A vowel sound.
#[derive(Debug, Copy, Clone, PartialEq, Eq, Hash, Structural)]
pub enum Vowel {
    A,
    E,
    I,
    O,
    U,
}

/// What a sound segment is: a vowel, a consonant or a pause.
#[derive(Debug, Copy, Clone, PartialEq, Eq, Hash, Structural)]
pub enum SoundSegmentKind {
    Vowel(Vowel),
    Consonant(Consonant),
    Space,
}

impl Consonant {
    /// The letter that writes this consonant.
    pub open spec fn spec_text(self) -> Seq<char> {
        match self {
            Consonant::T => seq!['t'],
            Consonant::K => seq!['k'],
            Consonant::P => seq!['p'],
            Consonant::L => seq!['l'],
            Consonant::W => seq!['w'],
            Consonant::S => seq!['s'],
            Consonant::J => seq!['j'],
            Consonant::N => seq!['n'],
            Consonant::M => seq!['m'],
        }
    }

    /// The letter that writes this consonant, as `spec_text` says.
    pub fn to_string(&self) -> (text: String)
        ensures
            text@ == self.spec_text(),
    {
        proof {
            reveal_strlit("t");
            reveal_strlit("k");
            reveal_strlit("p");
            reveal_strlit("l");
            reveal_strlit("w");
            reveal_strlit("s");
            reveal_strlit("j");
            reveal_strlit("n");
            reveal_strlit("m");
        }
        let letter = match self {
            Consonant::T => "t",
            Consonant::K => "k",
            Consonant::P => "p",
            Consonant::L => "l",
            Consonant::W => "w",
            Consonant::S => "s",
            Consonant::J => "j",
            Consonant::N => "n",
            Consonant::M => "m",
        };
        String::from_str(letter)
    }
}

impl Vowel {
    /// The letter that writes this vowel.
    pub open spec fn spec_text(self) -> Seq<char> {
        match self {
            Vowel::A => seq!['a'],
            Vowel::E => seq!['e'],
            Vowel::I => seq!['i'],
            Vowel::O => seq!['o'],
            Vowel::U => seq!['u'],
        }
    }

    /// The letter that writes this vowel, as `spec_text` says.
    pub fn to_string(&self) -> (text: String)
        ensures
            text@ == self.spec_text(),
    {
        proof {
            reveal_strlit("a");
            reveal_strlit("e");
            reveal_strlit("i");
            reveal_strlit("o");
            reveal_strlit("u");
        }
        let letter = match self {
            Vowel::A => "a",
            Vowel::E => "e",
            Vowel::I => "i",
            Vowel::O => "o",
            Vowel::U => "u",
        };
        String::from_str(letter)
    }
}

impl SoundSegmentKind {
    /// How the kind is written: the letter of its vowel or consonant, or
    /// `Space`.
    pub open spec fn spec_text(self) -> Seq<char> {
        match self {
            SoundSegmentKind::Vowel(v) => v.spec_text(),
            SoundSegmentKind::Consonant(c) => c.spec_text(),
            SoundSegmentKind::Space => "Space"@,
        }
    }

    /// How the kind is written, as `spec_text` says.
    pub fn to_string(&self) -> (text: String)
        ensures
            text@ == self.spec_text(),
    {
        match self {
            SoundSegmentKind::Vowel(v) => v.to_string(),
            SoundSegmentKind::Consonant(c) => c.to_string(),
            SoundSegmentKind::Space => String::from_str("Space"),
        }
    }
}

/// Different kinds are written differently.
pub proof fn lemma_kind_text_injective(a: SoundSegmentKind, b: SoundSegmentKind)
    ensures
        a.spec_text() == b.spec_text() ==> a == b,
{
    reveal_strlit("Space");
    if a.spec_text() == b.spec_text() {
        assert(a.spec_text()[0] == b.spec_text()[0]);
        assert(a.spec_text().len() == b.spec_text().len());
    }
}

/// Each segment consonant and vowel is written with its own single
/// lower-case letter (`t k p l w s j n m`, `a e i o u`), and the pause as
/// `Space`.
pub proof fn lemma_segment_letters(c: Consonant, v: Vowel)
    ensures
        c.spec_text() == seq![match c {
            Consonant::T => 't',
            Consonant::K => 'k',
            Consonant::P => 'p',
            Consonant::L => 'l',
            Consonant::W => 'w',
            Consonant::S => 's',
            Consonant::J => 'j',
            Consonant::N => 'n',
            Consonant::M => 'm',
        }],
        v.spec_text() == seq![match v {
            Vowel::A => 'a',
            Vowel::E => 'e',
            Vowel::I => 'i',
            Vowel::O => 'o',
            Vowel::U => 'u',
        }],
        SoundSegmentKind::Consonant(c).spec_text() == c.spec_text(),
        SoundSegmentKind::Vowel(v).spec_text() == v.spec_text(),
        SoundSegmentKind::Space.spec_text() == seq!['S', 'p', 'a', 'c', 'e'],
{
    reveal_strlit("Space");
}

} // verus!
