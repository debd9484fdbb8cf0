//! Which sounds a sequence of syllables is spoken as, in order: the part of
//! speech synthesis that decides what to say, before any waveform is made.
use vstd::prelude::*;

use crate::syl::{ascii_bytes, consonant_of, lemma_letters, vowel_of, Consonant, Syllable, Vowel};

verus! {

/// One sound that the synthesizer glides to: a consonant, a vowel or
/// silence.
#[derive(Debug, Copy, Clone, PartialEq, Eq, Structural)]
pub enum Sound {
    Consonant(Consonant),
    Vowel(Vowel),
    Space,
}

/// The sounds of one item read from text: a word break is one silence; the
/// pause is three silences (in the places of consonant, vowel and final
/// `n`); any other syllable is its consonant (if any), its vowel, and an `n`
/// for a final `n`.
pub open(crate) spec fn syllable_sounds(item: Option<Syllable>) -> Seq<Sound> {
    match item {
        None => seq![Sound::Space],
        Some(s) => if s.is_space {
            seq![Sound::Space, Sound::Space, Sound::Space]
        } else {
            (match s.consonant {
                Some(c) => seq![Sound::Consonant(c)],
                None => Seq::empty(),
            }) + seq![Sound::Vowel(s.vowel)] + (if s.nasal {
                seq![Sound::Consonant(Consonant::N)]
            } else {
                Seq::empty()
            })
        },
    }
}

/// The sounds of a sequence of items, one item after the other.
pub open(crate) spec fn sounds_of(items: Seq<Option<Syllable>>) -> Seq<Sound>
    decreases items.len(),
{
    if items.len() == 0 {
        Seq::empty()
    } else {
        sounds_of(items.drop_last()) + syllable_sounds(items.last())
    }
}

fn push_syllable_sounds(out: &mut Vec<Sound>, item: Option<Syllable>)
    ensures
        final(out)@ == old(out)@ + syllable_sounds(item),
{
    match item {
        None => out.push(Sound::Space),
        Some(s) => {
            if s.is_space() {
                out.push(Sound::Space);
                out.push(Sound::Space);
                out.push(Sound::Space);
            } else {
                match s.consonant {
                    Some(c) => out.push(Sound::Consonant(c)),
                    None => {},
                }
                out.push(Sound::Vowel(s.vowel));
                if s.nasal {
                    out.push(Sound::Consonant(Consonant::N));
                }
            }
        },
    }
}

/// The sounds that `items` (syllables, with `None` for a word break) are
/// spoken as, in order.
pub fn sound_sequence(items: &[Option<Syllable>]) -> (sounds: Vec<Sound>)
    ensures
        sounds@ == sounds_of(items@),
{
    let mut sounds: Vec<Sound> = Vec::new();
    let mut i: usize = 0;
    while i < items.len()
        invariant
            0 <= i <= items@.len(),
            sounds@ == sounds_of(items@.take(i as int)),
        decreases items@.len() - i,
    {
        push_syllable_sounds(&mut sounds, items[i]);
        proof {
            assert(items@.take(i + 1).drop_last() =~= items@.take(i as int));
        }
        i = i + 1;
    }
    proof {
        assert(items@.take(items@.len() as int) =~= items@);
    }
    sounds
}

/// The sounds of two sequences spoken one after the other are the sounds of
/// the first followed by the sounds of the second.
pub proof fn lemma_sounds_concat(a: Seq<Option<Syllable>>, b: Seq<Option<Syllable>>)
    ensures
        sounds_of(a + b) == sounds_of(a) + sounds_of(b),
    decreases b.len(),
{
    if b.len() == 0 {
        assert(a + b =~= a);
    } else {
        lemma_sounds_concat(a, b.drop_last());
        assert((a + b).drop_last() =~= a + b.drop_last());
    }
}

/// The sounds of one item, by the parts of the syllable: see
/// `syllable_sounds`.
pub proof fn lemma_syllable_sounds_parts(item: Option<Syllable>)
    ensures
        syllable_sounds(item) == match item {
            None => seq![Sound::Space],
            Some(s) => if s.spec_is_space() {
                seq![Sound::Space, Sound::Space, Sound::Space]
            } else {
                (match s.spec_consonant() {
                    Some(c) => seq![Sound::Consonant(c)],
                    None => Seq::<Sound>::empty(),
                }) + seq![Sound::Vowel(s.spec_vowel())] + (if s.spec_nasal() {
                    seq![Sound::Consonant(Consonant::N)]
                } else {
                    Seq::<Sound>::empty()
                })
            },
        },
{
}

/// The sounds of a sequence of items: none for none, else those of all but
/// the last item followed by those of the last: see `sounds_of`.
pub proof fn lemma_sounds_of_parts(items: Seq<Option<Syllable>>)
    ensures
        items.len() == 0 ==> sounds_of(items) == Seq::<Sound>::empty(),
        items.len() > 0 ==> sounds_of(items) == sounds_of(items.drop_last()) + syllable_sounds(items.last()),
{
}

/// The sound that a written letter stands for: its consonant or its vowel.
pub open spec fn letter_sound(b: u8) -> Option<Sound> {
    match consonant_of(b) {
        Some(c) => Some(Sound::Consonant(c)),
        None => match vowel_of(b) {
            Some(v) => Some(Sound::Vowel(v)),
            None => None,
        },
    }
}

/// A syllable other than the pause is spoken letter by letter as it is
/// written: one sound for each letter of its written form, the sound of
/// that letter (so a final `n` is spoken as the consonant `n`). The pause is
/// three silences and a word break one.
pub proof fn lemma_sounds_follow_letters(item: Option<Syllable>)
    ensures
        item is None ==> syllable_sounds(item) == seq![Sound::Space],
        (item matches Some(s) && s.spec_is_space()) ==> syllable_sounds(item)
            == seq![Sound::Space, Sound::Space, Sound::Space],
        match item {
            None => true,
            Some(s) => !s.spec_is_space() ==> ({
                let text = ascii_bytes(s.spec_text());
                &&& syllable_sounds(item).len() == text.len()
                &&& forall|i: int| 0 <= i < text.len() ==> letter_sound(#[trigger] text[i])
                    == Some(syllable_sounds(item)[i])
            }),
        },
{
    if let Some(s) = item {
        if !s.spec_is_space() {
            match s.consonant {
                Some(c) => lemma_letters(c, s.vowel),
                None => lemma_letters(Consonant::T, s.vowel),
            }
            let text = ascii_bytes(s.spec_text());
            let sounds = syllable_sounds(item);
            assert forall|i: int| 0 <= i < text.len() implies letter_sound(#[trigger] text[i]) == Some(sounds[i]) by {
                match s.consonant {
                    Some(c) => {
                        if i == 0 {
                            assert(consonant_of(text[0]) == Some(c));
                        } else if i == 1 {
                            assert(consonant_of(text[1]) is None);
                        }
                    },
                    None => {
                        if i == 0 {
                            assert(consonant_of(text[0]) is None);
                        }
                    },
                }
            }
        }
    }
}

} // verus!
