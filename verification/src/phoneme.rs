//! From a phoneme string to the integer ids a voice model reads.
//!
//! The model family expects a blank id block after the start marker and after
//! every symbol; without it the audio is garbled. The mapping is stated once
//! as `spec_phoneme_ids`, computed by `map_phonemes`, and the block structure
//! of its result is proved below.

use vstd::prelude::*;
use std::collections::HashMap;
use crate::text::{chars_of, is_whitespace, is_whitespace_char};

verus! {

broadcast use vstd::std_specs::hash::group_hash_axioms;

/// Marks the start of an utterance.
pub const START_SYMBOL: char = '^';

/// Marks the end of an utterance.
pub const END_SYMBOL: char = '$';

/// The blank that separates symbols.
pub const BLANK_SYMBOL: char = '_';

/// Stands for any white space in the phoneme string.
pub const SPACE_SYMBOL: char = ' ';

/// A model's table from single phonetic symbols to ids.
pub struct PhonemeMap {
    entries: HashMap<u32, Vec<i64>>,
}

impl View for PhonemeMap {
    type V = Map<char, Seq<i64>>;

    closed spec fn view(&self) -> Map<char, Seq<i64>> {
        Map::new(
            |c: char| self.entries@.contains_key(c as u32),
            |c: char| self.entries@[c as u32]@,
        )
    }
}

/// Different characters have different code points.
proof fn lemma_code_points_differ(c: char, d: char)
    ensures
        c as u32 == d as u32 ==> c == d,
{
}

impl PhonemeMap {
    /// A table without entries.
    pub fn new() -> (m: PhonemeMap)
        ensures
            m@ == Map::<char, Seq<i64>>::empty(),
    {
        let m = PhonemeMap { entries: HashMap::new() };
        assert(m@ =~= Map::<char, Seq<i64>>::empty());
        m
    }

    /// Sets the ids of `symbol`, replacing what it had.
    pub fn insert(&mut self, symbol: char, ids: Vec<i64>)
        ensures
            final(self)@ == old(self)@.insert(symbol, ids@),
    {
        let ghost before = self.entries@;
        let ghost new_ids = ids@;
        self.entries.insert(symbol as u32, ids);
        assert(self.entries@ == before.insert(symbol as u32, ids));
        proof {
            let target = old(self)@.insert(symbol, new_ids);
            assert forall|c: char| self@.dom().contains(c) == target.dom().contains(c) by {
                lemma_code_points_differ(c, symbol);
            }
            assert forall|c: char| self@.dom().contains(c) implies self@[c] == target[c] by {
                lemma_code_points_differ(c, symbol);
            }
            assert(self@ =~= target);
        }
    }

    /// The ids of `symbol`, if it has an entry.
    pub fn get(&self, symbol: char) -> (r: Option<&Vec<i64>>)
        ensures
            match r {
                Some(ids) => self@.contains_key(symbol) && ids@ == self@[symbol],
                None => !self@.contains_key(symbol),
            },
    {
        let key: u32 = symbol as u32;
        self.entries.get(&key)
    }

    /// The number of symbols that have an entry.
    pub fn len(&self) -> (n: usize)
        ensures
            n == self.spec_len(),
    {
        self.entries.len()
    }

    /// The number of symbols that have an entry.
    pub closed spec fn spec_len(&self) -> nat {
        self.entries@.len()
    }
}

/// The ids of `c`, or nothing where `c` has no entry.
pub open spec fn ids_or_empty(map: Map<char, Seq<i64>>, c: char) -> Seq<i64> {
    if map.contains_key(c) {
        map[c]
    } else {
        Seq::empty()
    }
}

/// What one character of the phoneme string stands for: its own ids where it
/// has an entry; the ids of the space symbol where it is white space without
/// an entry; `None` where it is skipped.
pub open spec fn spec_symbol_ids(map: Map<char, Seq<i64>>, c: char) -> Option<Seq<i64>> {
    if map.contains_key(c) {
        Some(map[c])
    } else if is_whitespace_char(c) {
        Some(ids_or_empty(map, SPACE_SYMBOL))
    } else {
        None
    }
}

/// What one character contributes: its ids and then the blank, or nothing
/// where it is skipped.
pub open spec fn spec_symbol_block(map: Map<char, Seq<i64>>, c: char) -> Seq<i64> {
    match spec_symbol_ids(map, c) {
        Some(ids) => ids + ids_or_empty(map, BLANK_SYMBOL),
        None => Seq::empty(),
    }
}

/// The blocks of all characters of `phonemes`, in order.
pub open spec fn spec_body_ids(map: Map<char, Seq<i64>>, phonemes: Seq<char>) -> Seq<i64>
    decreases phonemes.len(),
{
    if phonemes.len() == 0 {
        Seq::empty()
    } else {
        spec_body_ids(map, phonemes.drop_last()) + spec_symbol_block(map, phonemes.last())
    }
}

/// The id sequence for `phonemes`: start marker, blank, one block per
/// character that is not skipped, end marker.
pub open spec fn spec_phoneme_ids(map: Map<char, Seq<i64>>, phonemes: Seq<char>) -> Seq<i64> {
    ids_or_empty(map, START_SYMBOL) + ids_or_empty(map, BLANK_SYMBOL) + spec_body_ids(
        map,
        phonemes,
    ) + ids_or_empty(map, END_SYMBOL)
}

/// The summed lengths of the ids of the characters of `phonemes` that are not
/// skipped.
pub open spec fn spec_symbol_id_count(map: Map<char, Seq<i64>>, phonemes: Seq<char>) -> nat
    decreases phonemes.len(),
{
    if phonemes.len() == 0 {
        0
    } else {
        spec_symbol_id_count(map, phonemes.drop_last()) + match spec_symbol_ids(
            map,
            phonemes.last(),
        ) {
            Some(ids) => ids.len(),
            None => 0,
        }
    }
}

/// How many characters of `phonemes` are not skipped.
pub open spec fn spec_emitted_symbols(map: Map<char, Seq<i64>>, phonemes: Seq<char>) -> nat
    decreases phonemes.len(),
{
    if phonemes.len() == 0 {
        0
    } else {
        spec_emitted_symbols(map, phonemes.drop_last()) + if spec_symbol_ids(
            map,
            phonemes.last(),
        ) is Some {
            1nat
        } else {
            0nat
        }
    }
}

/// Whether `phonemes` gives the model anything to speak: at least one of its
/// characters is emitted, and the id sequence is not empty. Markers alone are
/// not speech.
pub open spec fn has_usable_symbols(map: Map<char, Seq<i64>>, phonemes: Seq<char>) -> bool {
    spec_emitted_symbols(map, phonemes) > 0 && spec_phoneme_ids(map, phonemes).len() > 0
}

/// Every character of `phonemes` has an entry of its own.
pub open spec fn all_mapped(map: Map<char, Seq<i64>>, phonemes: Seq<char>) -> bool {
    forall|i: int| 0 <= i < phonemes.len() ==> map.contains_key(#[trigger] phonemes[i])
}

/// No character of `phonemes` is recognized: none has an entry, and none is
/// white space.
pub open spec fn none_recognized(map: Map<char, Seq<i64>>, phonemes: Seq<char>) -> bool {
    forall|i: int|
        0 <= i < phonemes.len() ==> spec_symbol_ids(map, #[trigger] phonemes[i]) is None
}

/// Where the block of character `i` begins in `spec_phoneme_ids`.
pub open spec fn spec_block_start(map: Map<char, Seq<i64>>, phonemes: Seq<char>, i: int) -> int {
    (ids_or_empty(map, START_SYMBOL).len() + ids_or_empty(map, BLANK_SYMBOL).len() + spec_body_ids(
        map,
        phonemes.take(i),
    ).len()) as int
}

/// The blocks of a concatenation are the blocks of its parts.
pub proof fn lemma_body_ids_concat(map: Map<char, Seq<i64>>, a: Seq<char>, b: Seq<char>)
    ensures
        spec_body_ids(map, a + b) == spec_body_ids(map, a) + spec_body_ids(map, b),
    decreases b.len(),
{
    if b.len() == 0 {
        assert(a + b =~= a);
        assert(spec_body_ids(map, a) + spec_body_ids(map, b) =~= spec_body_ids(map, a));
    } else {
        lemma_body_ids_concat(map, a, b.drop_last());
        assert((a + b).drop_last() =~= a + b.drop_last());
        assert((a + b).last() == b.last());
        assert(spec_body_ids(map, a + b) =~= spec_body_ids(map, a) + spec_body_ids(map, b));
    }
}

/// The length of the id sequence: the two markers, the ids of the emitted
/// symbols, and one blank for the start marker and one for each emitted
/// symbol.
pub proof fn lemma_phoneme_ids_len(map: Map<char, Seq<i64>>, phonemes: Seq<char>)
    ensures
        spec_body_ids(map, phonemes).len() == spec_symbol_id_count(map, phonemes)
            + spec_emitted_symbols(map, phonemes) * ids_or_empty(map, BLANK_SYMBOL).len(),
        spec_phoneme_ids(map, phonemes).len() == ids_or_empty(map, START_SYMBOL).len()
            + ids_or_empty(map, END_SYMBOL).len() + spec_symbol_id_count(map, phonemes) + (
        spec_emitted_symbols(map, phonemes) + 1) * ids_or_empty(map, BLANK_SYMBOL).len(),
    decreases phonemes.len(),
{
    let blank = ids_or_empty(map, BLANK_SYMBOL).len();
    if phonemes.len() > 0 {
        lemma_phoneme_ids_len(map, phonemes.drop_last());
        let n = spec_emitted_symbols(map, phonemes.drop_last());
        assert((n + 1) * blank == n * blank + blank) by (nonlinear_arith);
    }
    let m = spec_emitted_symbols(map, phonemes);
    assert((m + 1) * blank == m * blank + blank) by (nonlinear_arith);
}

/// Where every character has an entry, every character is emitted.
pub proof fn lemma_all_mapped_all_emitted(map: Map<char, Seq<i64>>, phonemes: Seq<char>)
    requires
        all_mapped(map, phonemes),
    ensures
        spec_emitted_symbols(map, phonemes) == phonemes.len(),
    decreases phonemes.len(),
{
    if phonemes.len() > 0 {
        assert(map.contains_key(phonemes[phonemes.len() - 1]));
        assert forall|i: int| 0 <= i < phonemes.drop_last().len() implies map.contains_key(
            #[trigger] phonemes.drop_last()[i],
        ) by {
            assert(phonemes.drop_last()[i] == phonemes[i]);
        }
        lemma_all_mapped_all_emitted(map, phonemes.drop_last());
    }
}

/// Interleaving. The id sequence begins with the start marker's ids followed
/// by the blank and ends with the end marker's ids. Where all `k` characters
/// have entries, the length counts exactly `k + 1` blanks, and for every
/// character `i` the sequence holds, from `spec_block_start`, that
/// character's ids, then one blank, and right there the block of the next
/// character begins (or, after the last one, the end marker).
pub proof fn lemma_interleaving(map: Map<char, Seq<i64>>, phonemes: Seq<char>)
    ensures
        ({
            let ids = spec_phoneme_ids(map, phonemes);
            let start = ids_or_empty(map, START_SYMBOL);
            let blank = ids_or_empty(map, BLANK_SYMBOL);
            let end = ids_or_empty(map, END_SYMBOL);
            &&& ids.len() >= start.len() + blank.len() + end.len()
            &&& ids.subrange(0, start.len() as int) == start
            &&& ids.subrange(start.len() as int, (start.len() + blank.len()) as int) == blank
            &&& ids.subrange(ids.len() - end.len(), ids.len() as int) == end
            &&& all_mapped(map, phonemes) ==> {
                &&& ids.len() == start.len() + end.len() + spec_symbol_id_count(map, phonemes) + (
                phonemes.len() + 1) * blank.len()
                &&& spec_block_start(map, phonemes, phonemes.len() as int) == ids.len() - end.len()
                &&& forall|i: int|
                    #![trigger phonemes[i]]
                    0 <= i < phonemes.len() ==> {
                        let at = spec_block_start(map, phonemes, i);
                        let own = map[phonemes[i]];
                        &&& 0 <= at
                        &&& at + own.len() + blank.len() == spec_block_start(map, phonemes, i + 1)
                        &&& spec_block_start(map, phonemes, i + 1) <= ids.len() - end.len()
                        &&& ids.subrange(at, at + own.len()) == own
                        &&& ids.subrange(at + own.len(), at + own.len() + blank.len()) == blank
                    }
            }
        }),
{
    let ids = spec_phoneme_ids(map, phonemes);
    let start = ids_or_empty(map, START_SYMBOL);
    let blank = ids_or_empty(map, BLANK_SYMBOL);
    let end = ids_or_empty(map, END_SYMBOL);
    let body = spec_body_ids(map, phonemes);
    assert(ids.subrange(0, start.len() as int) =~= start);
    assert(ids.subrange(start.len() as int, (start.len() + blank.len()) as int) =~= blank);
    assert(ids.subrange(ids.len() - end.len(), ids.len() as int) =~= end);
    if all_mapped(map, phonemes) {
        lemma_phoneme_ids_len(map, phonemes);
        lemma_all_mapped_all_emitted(map, phonemes);
        assert(phonemes.take(phonemes.len() as int) =~= phonemes);
        assert forall|i: int| #![trigger phonemes[i]] 0 <= i < phonemes.len() implies {
            let at = spec_block_start(map, phonemes, i);
            let own = map[phonemes[i]];
            &&& 0 <= at
            &&& at + own.len() + blank.len() == spec_block_start(map, phonemes, i + 1)
            &&& spec_block_start(map, phonemes, i + 1) <= ids.len() - end.len()
            &&& ids.subrange(at, at + own.len()) == own
            &&& ids.subrange(at + own.len(), at + own.len() + blank.len()) == blank
        } by {
            let at = spec_block_start(map, phonemes, i);
            let own = map[phonemes[i]];
            let head = phonemes.take(i);
            let upto = phonemes.take(i + 1);
            let tail = phonemes.skip(i + 1);
            assert(upto.drop_last() =~= head);
            assert(upto.last() == phonemes[i]);
            assert(spec_body_ids(map, upto) == spec_body_ids(map, head) + (own + blank));
            assert(phonemes =~= upto + tail);
            lemma_body_ids_concat(map, upto, tail);
            assert(body == spec_body_ids(map, head) + (own + blank) + spec_body_ids(map, tail));
            assert(ids.subrange(at, at + own.len()) =~= own);
            assert(ids.subrange(at + own.len(), at + own.len() + blank.len()) =~= blank);
        }
    }
}

/// Where nothing is recognized, no symbol is emitted and nothing is usable:
/// only the markers and one blank would remain, and where the table lacks
/// those too, the id sequence is empty.
pub proof fn lemma_unrecognized_input(map: Map<char, Seq<i64>>, phonemes: Seq<char>)
    requires
        none_recognized(map, phonemes),
    ensures
        spec_emitted_symbols(map, phonemes) == 0,
        !has_usable_symbols(map, phonemes),
        spec_body_ids(map, phonemes) == Seq::<i64>::empty(),
        spec_phoneme_ids(map, phonemes) == ids_or_empty(map, START_SYMBOL) + ids_or_empty(
            map,
            BLANK_SYMBOL,
        ) + ids_or_empty(map, END_SYMBOL),
        !map.contains_key(START_SYMBOL) && !map.contains_key(BLANK_SYMBOL) && !map.contains_key(
            END_SYMBOL,
        ) ==> spec_phoneme_ids(map, phonemes).len() == 0,
    decreases phonemes.len(),
{
    if phonemes.len() > 0 {
        assert(spec_symbol_ids(map, phonemes[phonemes.len() - 1]) is None);
        assert forall|i: int| 0 <= i < phonemes.drop_last().len() implies spec_symbol_ids(
            map,
            #[trigger] phonemes.drop_last()[i],
        ) is None by {
            assert(phonemes.drop_last()[i] == phonemes[i]);
        }
        lemma_unrecognized_input(map, phonemes.drop_last());
        assert(spec_body_ids(map, phonemes) =~= Seq::<i64>::empty());
    }
    assert(spec_phoneme_ids(map, phonemes) =~= ids_or_empty(map, START_SYMBOL) + ids_or_empty(
        map,
        BLANK_SYMBOL,
    ) + ids_or_empty(map, END_SYMBOL));
}

/// Appends `ids` to `out`.
fn append_ids(out: &mut Vec<i64>, ids: &Vec<i64>)
    ensures
        final(out)@ == old(out)@ + ids@,
{
    let mut i: usize = 0;
    while i < ids.len()
        invariant
            i <= ids.len(),
            out@ == old(out)@ + ids@.take(i as int),
        decreases ids.len() - i,
    {
        proof {
            assert(ids@.take(i + 1) =~= ids@.take(i as int).push(ids@[i as int]));
            assert((old(out)@ + ids@.take(i as int)).push(ids@[i as int]) =~= old(out)@
                + ids@.take(i + 1));
        }
        out.push(ids[i]);
        i += 1;
    }
    proof {
        assert(ids@.take(i as int) =~= ids@);
    }
}

/// Appends the ids of `symbol` to `out`, or nothing where it has no entry.
fn append_entry(out: &mut Vec<i64>, map: &PhonemeMap, symbol: char)
    ensures
        final(out)@ == old(out)@ + ids_or_empty(map@, symbol),
{
    match map.get(symbol) {
        Some(ids) => append_ids(out, ids),
        None => {
            assert(out@ + Seq::<i64>::empty() =~= out@);
        },
    }
}

/// No more symbols are emitted than there are characters.
proof fn lemma_emitted_bound(map: Map<char, Seq<i64>>, phonemes: Seq<char>)
    ensures
        spec_emitted_symbols(map, phonemes) <= phonemes.len(),
    decreases phonemes.len(),
{
    if phonemes.len() > 0 {
        lemma_emitted_bound(map, phonemes.drop_last());
    }
}

/// Counts the characters of `phonemes` that are not skipped: those with an
/// entry of their own, and white space.
pub fn emitted_symbols(map: &PhonemeMap, phonemes: &str) -> (n: usize)
    ensures
        n == spec_emitted_symbols(map@, phonemes@),
{
    let symbols = chars_of(phonemes);
    let mut n: usize = 0;
    let mut i: usize = 0;
    while i < symbols.len()
        invariant
            i <= symbols.len(),
            n <= i,
            n == spec_emitted_symbols(map@, symbols@.take(i as int)),
        decreases symbols.len() - i,
    {
        let c = symbols[i];
        proof {
            assert(symbols@.take(i + 1).drop_last() =~= symbols@.take(i as int));
            assert(symbols@.take(i + 1).last() == c);
        }
        let emitted = match map.get(c) {
            Some(_) => true,
            None => is_whitespace(c),
        };
        if emitted {
            n = n + 1;
        }
        i += 1;
    }
    proof {
        assert(symbols@.take(i as int) =~= symbols@);
    }
    n
}

/// Maps a phoneme string to model ids. A character without an entry that is
/// not white space is dropped without failing the utterance.
pub fn map_phonemes(map: &PhonemeMap, phonemes: &str) -> (ids: Vec<i64>)
    ensures
        ids@ == spec_phoneme_ids(map@, phonemes@),
{
    let symbols = chars_of(phonemes);
    let mut ids: Vec<i64> = Vec::new();
    append_entry(&mut ids, map, START_SYMBOL);
    append_entry(&mut ids, map, BLANK_SYMBOL);
    let ghost head = ids_or_empty(map@, START_SYMBOL) + ids_or_empty(map@, BLANK_SYMBOL);
    assert(ids@ =~= head);
    assert(head + spec_body_ids(map@, symbols@.take(0)) =~= head);
    let mut i: usize = 0;
    while i < symbols.len()
        invariant
            i <= symbols.len(),
            ids@ == head + spec_body_ids(map@, symbols@.take(i as int)),
        decreases symbols.len() - i,
    {
        let c = symbols[i];
        let ghost before = ids@;
        proof {
            assert(symbols@.take(i + 1).drop_last() =~= symbols@.take(i as int));
            assert(symbols@.take(i + 1).last() == c);
        }
        match map.get(c) {
            Some(own) => {
                append_ids(&mut ids, own);
                append_entry(&mut ids, map, BLANK_SYMBOL);
                assert(ids@ =~= before + spec_symbol_block(map@, c));
            },
            None => {
                if is_whitespace(c) {
                    append_entry(&mut ids, map, SPACE_SYMBOL);
                    append_entry(&mut ids, map, BLANK_SYMBOL);
                    assert(ids@ =~= before + spec_symbol_block(map@, c));
                } else {
                    assert(ids@ =~= before + spec_symbol_block(map@, c));
                }
            },
        }
        proof {
            assert(head + spec_body_ids(map@, symbols@.take(i as int)) + spec_symbol_block(map@, c)
                =~= head + spec_body_ids(map@, symbols@.take(i + 1)));
        }
        i += 1;
    }
    proof {
        assert(symbols@.take(i as int) =~= symbols@);
    }
    append_entry(&mut ids, map, END_SYMBOL);
    ids
}

} // verus!
