//! Cuts a text into units that the voice model takes comfortably.
//!
//! The text is split into sentences; consecutive sentences are then packed
//! into chunks of at most `MAX_CHUNK_SIZE` characters. A sentence is never cut:
//! one that alone exceeds the limit becomes a chunk of its own.

use vstd::prelude::*;
use crate::text::{chars_of, spec_trim, string_of, trim_chars};

verus! {

/// The most characters a chunk holds, unless it is a single longer sentence.
pub const MAX_CHUNK_SIZE: usize = 500;

/// Whether `c` ends a sentence.
pub open spec fn is_terminator(c: char) -> bool {
    c == '.' || c == '!' || c == '?'
}

/// The pieces of `s` between sentence terminators: one more piece than there
/// are terminators.
pub open spec fn spec_split(s: Seq<char>) -> Seq<Seq<char>>
    decreases s.len(),
{
    if s.len() == 0 {
        seq![Seq::empty()]
    } else {
        let init = spec_split(s.drop_last());
        if is_terminator(s.last()) {
            init.push(Seq::empty())
        } else {
            init.drop_last().push(init.last().push(s.last()))
        }
    }
}

/// The sentence made of a piece: the piece trimmed and closed with a full
/// stop, or none where nothing but white space is in it.
pub open spec fn spec_sentence_of(piece: Seq<char>) -> Option<Seq<char>> {
    let trimmed = spec_trim(piece);
    if trimmed.len() == 0 {
        None
    } else {
        Some(trimmed.push('.'))
    }
}

/// The sentences made of `pieces`, in order.
pub open spec fn spec_collect(pieces: Seq<Seq<char>>) -> Seq<Seq<char>>
    decreases pieces.len(),
{
    if pieces.len() == 0 {
        Seq::empty()
    } else {
        let init = spec_collect(pieces.drop_last());
        match spec_sentence_of(pieces.last()) {
            Some(s) => init.push(s),
            None => init,
        }
    }
}

/// The sentences of `text`.
pub open spec fn spec_sentences(text: Seq<char>) -> Seq<Seq<char>> {
    spec_collect(spec_split(text))
}

/// The sentences of `group` with one space between neighbours.
pub open spec fn spec_join(group: Seq<Seq<char>>) -> Seq<char>
    decreases group.len(),
{
    if group.len() == 0 {
        Seq::empty()
    } else if group.len() == 1 {
        group[0]
    } else {
        spec_join(group.drop_last()).push(' ') + group.last()
    }
}

/// Sentences sorted into groups: the groups that are finished, and the one
/// that still takes sentences.
pub struct Packing {
    pub closed: Seq<Seq<Seq<char>>>,
    pub open: Seq<Seq<char>>,
}

/// The groups of `p` once the open one, if it holds anything, is finished.
pub open spec fn spec_close(p: Packing) -> Seq<Seq<Seq<char>>> {
    if p.open.len() > 0 {
        p.closed.push(p.open)
    } else {
        p.closed
    }
}

/// Packs one more sentence. A sentence over the limit finishes the open group
/// and stands alone. One that no longer fits beside the open group finishes
/// it and opens the next. Any other joins the open group.
pub open spec fn spec_pack_step(p: Packing, sentence: Seq<char>) -> Packing {
    if sentence.len() > MAX_CHUNK_SIZE {
        Packing { closed: spec_close(p).push(seq![sentence]), open: Seq::empty() }
    } else if spec_join(p.open).len() + sentence.len() + 1 > MAX_CHUNK_SIZE {
        Packing { closed: spec_close(p), open: seq![sentence] }
    } else {
        Packing { closed: p.closed, open: p.open.push(sentence) }
    }
}

/// Packs `sentences` from first to last.
pub open spec fn spec_pack(sentences: Seq<Seq<char>>) -> Packing
    decreases sentences.len(),
{
    if sentences.len() == 0 {
        Packing { closed: Seq::empty(), open: Seq::empty() }
    } else {
        spec_pack_step(spec_pack(sentences.drop_last()), sentences.last())
    }
}

/// The groups that `sentences` are packed into.
pub open spec fn spec_groups(sentences: Seq<Seq<char>>) -> Seq<Seq<Seq<char>>> {
    spec_close(spec_pack(sentences))
}

/// Each group joined into one chunk.
pub open spec fn spec_join_each(groups: Seq<Seq<Seq<char>>>) -> Seq<Seq<char>> {
    Seq::new(groups.len(), |i: int| spec_join(groups[i]))
}

/// The chunks of `text`: its sentences, packed and joined. A text that is not
/// empty and holds no sentence is its own single chunk.
pub open spec fn spec_chunks(text: Seq<char>) -> Seq<Seq<char>> {
    let groups = spec_groups(spec_sentences(text));
    if groups.len() == 0 && text.len() > 0 {
        seq![text]
    } else {
        spec_join_each(groups)
    }
}

/// All sentences of `groups`, in order.
pub open spec fn spec_ungroup(groups: Seq<Seq<Seq<char>>>) -> Seq<Seq<char>>
    decreases groups.len(),
{
    if groups.len() == 0 {
        Seq::empty()
    } else {
        spec_ungroup(groups.drop_last()) + groups.last()
    }
}

/// A group is within the limit, or it is one sentence that alone exceeds it.
pub open spec fn group_fits(group: Seq<Seq<char>>) -> bool {
    group.len() >= 1 && (spec_join(group).len() <= MAX_CHUNK_SIZE || (group.len() == 1
        && group[0].len() > MAX_CHUNK_SIZE))
}

/// Adding a group adds its sentences at the end.
proof fn lemma_ungroup_push(groups: Seq<Seq<Seq<char>>>, group: Seq<Seq<char>>)
    ensures
        spec_ungroup(groups.push(group)) == spec_ungroup(groups) + group,
{
    assert(groups.push(group).drop_last() =~= groups);
}

/// While sentences are packed, none is lost, the open group stays within the
/// limit, and every finished group fits.
proof fn lemma_pack(sentences: Seq<Seq<char>>)
    ensures
        ({
            let p = spec_pack(sentences);
            &&& spec_ungroup(p.closed) + p.open == sentences
            &&& spec_join(p.open).len() <= MAX_CHUNK_SIZE
            &&& forall|i: int| 0 <= i < p.closed.len() ==> group_fits(#[trigger] p.closed[i])
        }),
    decreases sentences.len(),
{
    if sentences.len() == 0 {
        assert(spec_ungroup(spec_pack(sentences).closed) + spec_pack(sentences).open
            =~= sentences);
    } else {
        let before = spec_pack(sentences.drop_last());
        let s = sentences.last();
        let after = spec_pack(sentences);
        lemma_pack(sentences.drop_last());
        assert(sentences =~= sentences.drop_last().push(s));
        let shut = spec_close(before);
        assert(spec_ungroup(shut) =~= spec_ungroup(before.closed) + before.open) by {
            if before.open.len() > 0 {
                lemma_ungroup_push(before.closed, before.open);
            }
        }
        assert forall|i: int| 0 <= i < shut.len() implies group_fits(#[trigger] shut[i]) by {
            if i < before.closed.len() {
                assert(shut[i] == before.closed[i]);
            }
        }
        if s.len() > MAX_CHUNK_SIZE {
            lemma_ungroup_push(shut, seq![s]);
            assert(spec_ungroup(after.closed) + after.open =~= sentences);
            assert forall|i: int| 0 <= i < after.closed.len() implies group_fits(
                #[trigger] after.closed[i],
            ) by {
                if i < shut.len() {
                    assert(after.closed[i] == shut[i]);
                }
            }
        } else if spec_join(before.open).len() + s.len() + 1 > MAX_CHUNK_SIZE {
            assert(spec_ungroup(after.closed) + after.open =~= sentences);
        } else {
            assert(spec_ungroup(after.closed) + after.open =~= sentences);
            assert(after.open.drop_last() =~= before.open);
            if before.open.len() == 0 {
                assert(spec_join(after.open) == s);
            } else {
                assert(spec_join(after.open) == spec_join(before.open).push(' ') + s);
            }
        }
    }
}

/// No sentence is lost, moved or cut: the groups, read in order, hold exactly
/// the sentences that went in. And every group is within the limit, unless it
/// is a single sentence that alone exceeds it.
pub proof fn lemma_groups_keep_sentences(sentences: Seq<Seq<char>>)
    ensures
        spec_ungroup(spec_groups(sentences)) == sentences,
        forall|i: int|
            0 <= i < spec_groups(sentences).len() ==> group_fits(
                #[trigger] spec_groups(sentences)[i],
            ),
{
    lemma_pack(sentences);
    let p = spec_pack(sentences);
    if p.open.len() > 0 {
        lemma_ungroup_push(p.closed, p.open);
    } else {
        assert(spec_ungroup(p.closed) + p.open =~= spec_ungroup(p.closed));
    }
    assert forall|i: int| 0 <= i < spec_groups(sentences).len() implies group_fits(
        #[trigger] spec_groups(sentences)[i],
    ) by {
        if i < p.closed.len() {
            assert(spec_groups(sentences)[i] == p.closed[i]);
        }
    }
}

/// Every sentence ends with a full stop.
pub proof fn lemma_sentences_end_with_full_stop(pieces: Seq<Seq<char>>)
    ensures
        forall|i: int|
            0 <= i < spec_collect(pieces).len() ==> (#[trigger] spec_collect(pieces)[i]).len() > 0
                && spec_collect(pieces)[i].last() == '.',
    decreases pieces.len(),
{
    if pieces.len() > 0 {
        lemma_sentences_end_with_full_stop(pieces.drop_last());
        let before = spec_collect(pieces.drop_last());
        let all = spec_collect(pieces);
        assert forall|i: int| 0 <= i < all.len() implies (#[trigger] all[i]).len() > 0
            && all[i].last() == '.' by {
            if i < before.len() {
                assert(all[i] == before[i]);
            } else {
                let trimmed = spec_trim(pieces.last());
                assert(all[i] == trimmed.push('.'));
            }
        }
    }
}

/// A group of sentences that end with a full stop is joined into a chunk
/// that ends with a full stop.
proof fn lemma_join_ends_with_full_stop(group: Seq<Seq<char>>)
    requires
        group.len() > 0,
        forall|i: int| 0 <= i < group.len() ==> (#[trigger] group[i]).len() > 0 && group[i].last()
            == '.',
    ensures
        spec_join(group).len() > 0,
        spec_join(group).last() == '.',
    decreases group.len(),
{
    if group.len() > 1 {
        assert(group.last() == group[group.len() - 1]);
    }
}

/// A sentence of a group is a sentence of the whole: where it stands.
proof fn lemma_ungroup_index(groups: Seq<Seq<Seq<char>>>, g: int, k: int) -> (at: int)
    requires
        0 <= g < groups.len(),
        0 <= k < groups[g].len(),
    ensures
        0 <= at < spec_ungroup(groups).len(),
        spec_ungroup(groups)[at] == groups[g][k],
    decreases groups.len(),
{
    let before = spec_ungroup(groups.drop_last());
    if g == groups.len() - 1 {
        before.len() + k
    } else {
        assert(groups.drop_last()[g] == groups[g]);
        lemma_ungroup_index(groups.drop_last(), g, k)
    }
}

/// Every chunk of a text that holds a sentence ends with a full stop.
pub proof fn lemma_chunks_end_with_full_stop(text: Seq<char>)
    requires
        spec_sentences(text).len() > 0,
    ensures
        forall|i: int|
            0 <= i < spec_chunks(text).len() ==> (#[trigger] spec_chunks(text)[i]).len() > 0
                && spec_chunks(text)[i].last() == '.',
{
    let sentences = spec_sentences(text);
    let groups = spec_groups(sentences);
    lemma_groups_keep_sentences(sentences);
    lemma_sentences_end_with_full_stop(spec_split(text));
    if groups.len() == 0 {
        assert(spec_ungroup(groups) =~= Seq::<Seq<char>>::empty());
    }
    assert forall|i: int| 0 <= i < spec_chunks(text).len() implies (#[trigger] spec_chunks(
        text,
    )[i]).len() > 0 && spec_chunks(text)[i].last() == '.' by {
        let group = groups[i];
        assert(group_fits(group));
        assert forall|k: int| 0 <= k < group.len() implies (#[trigger] group[k]).len() > 0
            && group[k].last() == '.' by {
            let at = lemma_ungroup_index(groups, i, k);
            assert(sentences[at] == group[k]);
        }
        lemma_join_ends_with_full_stop(group);
    }
}

/// A text that forms one sentence becomes one chunk, that sentence, however
/// long it is.
pub proof fn lemma_one_sentence_one_chunk(text: Seq<char>)
    requires
        spec_sentences(text).len() == 1,
    ensures
        spec_chunks(text) == seq![spec_sentences(text)[0]],
{
    let sentences = spec_sentences(text);
    let s = sentences[0];
    assert(sentences.drop_last() =~= Seq::<Seq<char>>::empty());
    assert(sentences.last() == s);
    reveal_with_fuel(spec_pack, 2);
    let p = spec_pack(sentences);
    assert(spec_groups(sentences) =~= seq![seq![s]]);
    assert(spec_chunks(text) =~= seq![s]);
}

/// Sentences that together exceed the limit are spread over at least two
/// chunks.
pub proof fn lemma_long_text_needs_two_chunks(text: Seq<char>)
    requires
        spec_sentences(text).len() >= 2,
        spec_join(spec_sentences(text)).len() > MAX_CHUNK_SIZE,
    ensures
        spec_chunks(text).len() >= 2,
{
    let sentences = spec_sentences(text);
    let groups = spec_groups(sentences);
    lemma_groups_keep_sentences(sentences);
    if groups.len() == 0 {
        assert(spec_ungroup(groups) =~= Seq::<Seq<char>>::empty());
    } else if groups.len() == 1 {
        assert(groups.drop_last() =~= Seq::<Seq<Seq<char>>>::empty());
        assert(spec_ungroup(groups.drop_last()) =~= Seq::<Seq<char>>::empty());
        assert(spec_ungroup(groups) =~= groups[0]);
        assert(group_fits(groups[0]));
    }
}

/// The texts held by a list of character vectors.
pub open spec fn texts(v: Seq<Vec<char>>) -> Seq<Seq<char>> {
    Seq::new(v.len(), |i: int| v[i]@)
}

/// The texts held by a list of strings.
pub open spec fn string_texts(v: Seq<String>) -> Seq<Seq<char>> {
    Seq::new(v.len(), |i: int| v[i]@)
}

/// Adds to `out` the sentence made of `piece`, if it makes one.
fn push_sentence(out: &mut Vec<Vec<char>>, piece: &Vec<char>)
    ensures
        texts(final(out)@) == match spec_sentence_of(piece@) {
            Some(s) => texts(old(out)@).push(s),
            None => texts(old(out)@),
        },
{
    let mut sentence = trim_chars(piece);
    if sentence.len() > 0 {
        sentence.push('.');
        let ghost s = sentence@;
        out.push(sentence);
        assert(texts(out@) =~= texts(old(out)@).push(s));
    }
}

/// Splits `chars` into sentences.
fn split_sentences(chars: &Vec<char>) -> (out: Vec<Vec<char>>)
    ensures
        texts(out@) == spec_sentences(chars@),
{
    let mut out: Vec<Vec<char>> = Vec::new();
    let mut piece: Vec<char> = Vec::new();
    let mut i: usize = 0;
    proof {
        assert(chars@.take(0) =~= Seq::<char>::empty());
        assert(spec_split(chars@.take(0)).drop_last() =~= Seq::<Seq<char>>::empty());
        assert(texts(out@) =~= Seq::<Seq<char>>::empty());
    }
    while i < chars.len()
        invariant
            i <= chars.len(),
            spec_split(chars@.take(i as int)).len() >= 1,
            piece@ == spec_split(chars@.take(i as int)).last(),
            texts(out@) == spec_collect(spec_split(chars@.take(i as int)).drop_last()),
        decreases chars.len() - i,
    {
        let c = chars[i];
        let ghost before = spec_split(chars@.take(i as int));
        proof {
            assert(chars@.take(i + 1).drop_last() =~= chars@.take(i as int));
            assert(chars@.take(i + 1).last() == c);
        }
        if c == '.' || c == '!' || c == '?' {
            push_sentence(&mut out, &piece);
            piece = Vec::new();
            proof {
                assert(before.push(Seq::<char>::empty()).drop_last() =~= before);
            }
        } else {
            piece.push(c);
            proof {
                assert(before.drop_last().push(before.last().push(c)).drop_last()
                    =~= before.drop_last());
            }
        }
        i += 1;
    }
    proof {
        assert(chars@.take(i as int) =~= chars@);
    }
    push_sentence(&mut out, &piece);
    out
}

/// Packs `sentences` into chunks.
fn pack_sentences(sentences: &Vec<Vec<char>>) -> (chunks: Vec<Vec<char>>)
    ensures
        texts(chunks@) == spec_join_each(spec_groups(texts(sentences@))),
{
    let mut chunks: Vec<Vec<char>> = Vec::new();
    let mut current: Vec<char> = Vec::new();
    let mut open_count: usize = 0;
    let mut i: usize = 0;
    let ghost all = texts(sentences@);
    proof {
        assert(all.take(0) =~= Seq::<Seq<char>>::empty());
        assert(texts(chunks@) =~= spec_join_each(spec_pack(all.take(0)).closed));
    }
    while i < sentences.len()
        invariant
            i <= sentences.len(),
            all == texts(sentences@),
            texts(chunks@) == spec_join_each(spec_pack(all.take(i as int)).closed),
            current@ == spec_join(spec_pack(all.take(i as int)).open),
            open_count == spec_pack(all.take(i as int)).open.len(),
            open_count <= i,
            current@.len() <= MAX_CHUNK_SIZE,
        decreases sentences.len() - i,
    {
        let sentence = &sentences[i];
        let ghost before = spec_pack(all.take(i as int));
        let ghost s = sentence@;
        let ghost after = spec_pack_step(before, s);
        let ghost before_chunks = texts(chunks@);
        proof {
            assert(all.take(i + 1).drop_last() =~= all.take(i as int));
            assert(all.take(i + 1).last() == s);
            assert(spec_pack(all.take(i + 1)) == after);
        }
        if sentence.len() > MAX_CHUNK_SIZE {
            if open_count > 0 {
                let ghost c = current@;
                chunks.push(current);
                proof {
                    assert(texts(chunks@) =~= before_chunks.push(c));
                    assert(texts(chunks@) =~= spec_join_each(spec_close(before)));
                }
            }
            chunks.push(sentence.clone());
            current = Vec::new();
            open_count = 0;
            proof {
                assert(spec_join(seq![s]) == s);
                assert(texts(chunks@) =~= spec_join_each(spec_close(before)).push(s));
                assert(texts(chunks@) =~= spec_join_each(after.closed));
            }
        } else if current.len() + sentence.len() + 1 > MAX_CHUNK_SIZE {
            if open_count > 0 {
                let ghost c = current@;
                chunks.push(current);
                proof {
                    assert(texts(chunks@) =~= before_chunks.push(c));
                }
            }
            current = sentence.clone();
            open_count = 1;
            proof {
                assert(texts(chunks@) =~= spec_join_each(after.closed));
                assert(spec_join(seq![s]) == s);
            }
        } else {
            if open_count > 0 {
                current.push(' ');
            }
            let mut k: usize = 0;
            let ghost base = current@;
            while k < sentence.len()
                invariant
                    k <= sentence.len(),
                    current@ == base + sentence@.take(k as int),
                decreases sentence.len() - k,
            {
                proof {
                    assert(sentence@.take(k + 1) =~= sentence@.take(k as int).push(
                        sentence@[k as int],
                    ));
                    assert((base + sentence@.take(k as int)).push(sentence@[k as int]) =~= base
                        + sentence@.take(k + 1));
                }
                current.push(sentence[k]);
                k += 1;
            }
            open_count = open_count + 1;
            proof {
                assert(sentence@.take(k as int) =~= sentence@);
                assert(after.open.drop_last() =~= before.open);
                assert(after.open.last() == s);
                if before.open.len() == 0 {
                    assert(base + s =~= s);
                }
                assert(current@ =~= spec_join(after.open));
            }
        }
        i += 1;
    }
    proof {
        assert(all.take(i as int) =~= all);
    }
    if open_count > 0 {
        let ghost c = current@;
        let ghost before_chunks = texts(chunks@);
        chunks.push(current);
        proof {
            assert(texts(chunks@) =~= before_chunks.push(c));
        }
    }
    proof {
        assert(texts(chunks@) =~= spec_join_each(spec_groups(all)));
    }
    chunks
}

/// Cuts `text` into chunks for synthesis.
pub fn chunk_text(text: &str) -> (chunks: Vec<String>)
    ensures
        string_texts(chunks@) == spec_chunks(text@),
{
    let chars = chars_of(text);
    let sentences = split_sentences(&chars);
    let packed = pack_sentences(&sentences);
    let mut chunks: Vec<String> = Vec::new();
    if packed.len() == 0 && chars.len() > 0 {
        chunks.push(string_of(&chars));
        proof {
            assert(spec_join_each(spec_groups(spec_sentences(text@))).len() == 0);
            assert(string_texts(chunks@) =~= seq![text@]);
        }
        return chunks;
    }
    let mut i: usize = 0;
    while i < packed.len()
        invariant
            i <= packed.len(),
            chunks@.len() == i,
            forall|k: int| 0 <= k < i ==> (#[trigger] chunks@[k])@ == packed@[k]@,
        decreases packed.len() - i,
    {
        chunks.push(string_of(&packed[i]));
        i += 1;
    }
    proof {
        assert(string_texts(chunks@) =~= texts(packed@));
    }
    chunks
}

} // verus!
