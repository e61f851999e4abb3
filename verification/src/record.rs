//! The sample records: the payload that the write phase stores, and the
//! per-worker generator that fills it with random text.

use rand::rngs::SmallRng;
use rand::Rng;
use rand::SeedableRng;
use vstd::prelude::*;
use vstd::string::StrSliceExecFns;

verus! {

/// The number of characters in the text of every generated record.
pub const TEXT_LENGTH: usize = 50;

/// The number of symbols in the alphabet.
pub const ALPHABET_SIZE: usize = 37;

/// The alphabet that record texts are drawn from: the upper-case letters,
/// the space and the digits.
pub open spec fn alphabet() -> Seq<char> {
    "ABCDEFGHIJKLMNOPQRSTUVWXYZ 0123456789"@
}

/// Whether `c` is an upper-case letter, a space or a digit.
pub open spec fn is_symbol(c: char) -> bool {
    ('A' <= c && c <= 'Z') || c == ' ' || ('0' <= c && c <= '9')
}

/// Whether every character of `text` is a symbol of the alphabet.
pub open spec fn is_sample_text(text: Seq<char>) -> bool {
    &&& text.len() == TEXT_LENGTH
    &&& forall|i: int| 0 <= i < text.len() ==> is_symbol(#[trigger] text[i])
}

/// The alphabet has `ALPHABET_SIZE` symbols, each of them an upper-case
/// letter, a space or a digit, and none occurs twice.
pub proof fn lemma_alphabet()
    ensures
        alphabet().len() == ALPHABET_SIZE,
        forall|i: int| 0 <= i < alphabet().len() ==> is_symbol(#[trigger] alphabet()[i]),
        alphabet().no_duplicates(),
{
    reveal_strlit("ABCDEFGHIJKLMNOPQRSTUVWXYZ 0123456789");
}

/// The symbol at position `index` of the alphabet.
pub fn symbol(index: usize) -> (c: char)
    requires
        index < ALPHABET_SIZE,
    ensures
        c == alphabet()[index as int],
        is_symbol(c),
{
    proof {
        lemma_alphabet();
    }
    let charset: &str = "ABCDEFGHIJKLMNOPQRSTUVWXYZ 0123456789";
    charset.get_char(index)
}

/// What a record holds.
pub struct RecordView {
    /// The text field.
    pub text: Seq<char>,
    /// The integer field.
    pub integer: int,
}

/// One record of the backing store: a text and an integer.
#[derive(Debug)]
pub struct Record {
    /// The text field.
    pub text: String,
    /// The integer field.
    pub integer: i32,
}

impl View for Record {
    type V = RecordView;

    open spec fn view(&self) -> RecordView {
        RecordView { text: self.text@, integer: self.integer as int }
    }
}

impl Clone for Record {
    /// A copy with the same text and the same integer.
    fn clone(&self) -> (copy: Self)
        ensures
            copy@ == self@,
    {
        Record { text: self.text.clone(), integer: self.integer }
    }
}

impl Default for Record {
    /// The empty text and the integer zero.
    fn default() -> (record: Self)
        ensures
            record@.text == Seq::<char>::empty(),
            record@.integer == 0,
    {
        Record { text: String::new(), integer: 0 }
    }
}

#[verifier::external_type_specification]
#[verifier::external_body]
pub struct ExSmallRng(SmallRng);

/// `String::push` of the standard library: appends one character to the
/// end of the string.
pub assume_specification[ String::push ](text: &mut String, c: char)
    ensures
        final(text)@ == old(text)@.push(c),
;

/// `SmallRng::from_entropy` of `rand`: a generator seeded from the
/// operating system's entropy source. Nothing is claimed of the generator.
/// The call panics if the operating system cannot provide entropy.
#[verifier::external_body]
fn entropy_generator() -> SmallRng {
    SmallRng::from_entropy()
}

/// `Rng::gen_range` of `rand` on the range `0..bound`: a random number at
/// least 0 and below `bound`. The call panics on an empty range, which
/// `bound > 0` rules out.
#[verifier::external_body]
fn random_below(generator: &mut SmallRng, bound: usize) -> (index: usize)
    requires
        bound > 0,
    ensures
        index < bound,
{
    generator.gen_range(0..bound)
}

/// The text that the alphabet positions `indices` spell.
pub open spec fn spell(indices: Seq<int>) -> Seq<char> {
    Seq::new(indices.len(), |i: int| alphabet()[indices[i]])
}

/// Spells the text of the alphabet positions `indices`.
pub fn text_of(indices: &Vec<usize>) -> (text: String)
    requires
        forall|i: int| 0 <= i < indices@.len() ==> indices@[i] < ALPHABET_SIZE,
    ensures
        text@ == spell(indices@.map_values(|index: usize| index as int)),
        text@.len() == indices@.len(),
        forall|i: int| 0 <= i < text@.len() ==> is_symbol(#[trigger] text@[i]),
{
    let ghost positions = indices@.map_values(|index: usize| index as int);
    let mut text = String::new();
    let mut done: usize = 0;
    while done < indices.len()
        invariant
            done <= indices@.len(),
            positions == indices@.map_values(|index: usize| index as int),
            forall|i: int| 0 <= i < indices@.len() ==> indices@[i] < ALPHABET_SIZE,
            text@.len() == done,
            forall|i: int| 0 <= i < done ==> #[trigger] text@[i] == alphabet()[positions[i]],
            forall|i: int| 0 <= i < done ==> is_symbol(#[trigger] text@[i]),
        decreases indices@.len() - done,
    {
        let c = symbol(indices[done]);
        text.push(c);
        done = done + 1;
    }
    proof {
        assert(text@ =~= spell(positions));
    }
    text
}

/// The generator of one worker: a random source of its own and the record
/// that it refills for every sample.
pub struct RecordProvider {
    generator: SmallRng,
    record: Record,
}

impl RecordProvider {
    /// The record as the latest sample left it.
    pub closed spec fn current(&self) -> RecordView {
        self.record@
    }

    /// Refills the record for the next sample: a fresh random text of
    /// `TEXT_LENGTH` symbols of the alphabet. The integer field stays as it
    /// is.
    pub fn sample(&mut self) -> (record: &Record)
        ensures
            record@ == final(self).current(),
            is_sample_text(record@.text),
            record@.integer == old(self).current().integer,
    {
        let ghost before = self.record@;
        let mut indices: Vec<usize> = Vec::new();
        let mut drawn: usize = 0;
        while drawn < TEXT_LENGTH
            invariant
                self.record@ == before,
                drawn <= TEXT_LENGTH,
                indices@.len() == drawn,
                forall|i: int| 0 <= i < drawn ==> indices@[i] < ALPHABET_SIZE,
            decreases TEXT_LENGTH - drawn,
        {
            let index = random_below(&mut self.generator, ALPHABET_SIZE);
            indices.push(index);
            drawn = drawn + 1;
        }
        self.record.text = text_of(&indices);
        &self.record
    }

    /// The record as the latest sample left it.
    pub fn record(&self) -> (record: &Record)
        ensures
            record@ == self.current(),
    {
        &self.record
    }
}

impl Default for RecordProvider {
    /// A generator with a random source seeded from the operating system
    /// and a default record.
    fn default() -> (provider: Self)
        ensures
            provider.current().text == Seq::<char>::empty(),
            provider.current().integer == 0,
    {
        RecordProvider { generator: entropy_generator(), record: Record::default() }
    }
}

} // verus!
