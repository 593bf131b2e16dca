//! Breaks a text into lines of glyphs that fit a given width.
//!
//! A text is laid out in one of two ways. Wrapped, it is split into words at
//! its spaces, and a word that does not fit on the current line starts a new
//! one. Unwrapped, it is cut into lines of as many glyphs as the width
//! holds, wherever that falls. Widths count cells and include the padding of
//! each glyph.

use vstd::prelude::*;
use crate::codepage::{cp437_glyph, cp437_glyphs, to_cp437, FontCharType, GLYPH_SPACE};
use crate::geometry::{at_least_zero, padded, padded_len, MAX_PADDING};

verus! {

/// Lines of glyphs as mathematical sequences.
pub open spec fn lines_view(lines: Seq<Vec<FontCharType>>) -> Seq<Seq<FontCharType>> {
    lines.map_values(|l: Vec<FontCharType>| l@)
}

/// The words of a text as glyphs: the text is split at every space, so two
/// spaces in a row enclose an empty word, and a text of `n` spaces has
/// `n + 1` words.
pub open spec fn glyph_words(text: Seq<char>) -> Seq<Seq<FontCharType>>
    decreases text.len(),
{
    if text.len() == 0 {
        seq![Seq::<FontCharType>::empty()]
    } else {
        let before = glyph_words(text.drop_last());
        if text.last() == ' ' {
            before.push(Seq::<FontCharType>::empty())
        } else {
            before.update(before.len() - 1, before.last().push(cp437_glyph(text.last())))
        }
    }
}

/// The lines with `glyphs` added at the end of the last one.
pub open spec fn push_to_last(lines: Seq<Seq<FontCharType>>, glyphs: Seq<FontCharType>) -> Seq<
    Seq<FontCharType>,
> {
    lines.update(lines.len() - 1, lines.last() + glyphs)
}

/// The lines after the next word was placed. The last line first gets a
/// space, unless it is empty. The word then goes on the last line if it
/// fits there, else on a line of its own. A word too wide for a line of its
/// own cannot be placed.
pub open spec fn place_word(
    lines: Seq<Seq<FontCharType>>,
    word: Seq<FontCharType>,
    limit: int,
    pad: nat,
) -> Option<Seq<Seq<FontCharType>>> {
    let spaced = if lines.last().len() > 0 {
        push_to_last(lines, seq![GLYPH_SPACE])
    } else {
        lines
    };
    if word.len() == 0 {
        Some(spaced)
    } else if padded_len(spaced.last().len(), pad) + padded_len(word.len(), pad) <= limit {
        Some(push_to_last(spaced, word))
    } else if padded_len(word.len(), pad) <= limit {
        Some(spaced.push(word))
    } else {
        None
    }
}

/// The lines that hold the words in order, each line at most `limit` cells
/// wide but for spaces at its end; `None` if some word is wider than that.
pub open spec fn wrapped_lines(words: Seq<Seq<FontCharType>>, limit: int, pad: nat) -> Option<
    Seq<Seq<FontCharType>>,
>
    decreases words.len(),
{
    if words.len() == 0 {
        Some(seq![Seq::<FontCharType>::empty()])
    } else {
        match wrapped_lines(words.drop_last(), limit, pad) {
            Some(lines) => place_word(lines, words.last(), limit, pad),
            None => None,
        }
    }
}

/// The lines that hold the glyphs cut at every `limit` glyphs. What is left
/// at the end stays together as soon as it fits the width with its padding.
/// Glyphs that are no more than `limit` but too wide with their padding fill
/// one line and leave an empty one behind. `None` if there are glyphs and
/// no cell to put one in.
pub open spec fn chunked_lines(glyphs: Seq<FontCharType>, limit: int, pad: nat) -> Option<
    Seq<Seq<FontCharType>>,
>
    decreases glyphs.len(),
{
    if glyphs.len() == 0 || padded_len(glyphs.len(), pad) <= limit {
        Some(seq![glyphs])
    } else if limit <= 0 {
        None
    } else if glyphs.len() <= limit {
        Some(seq![glyphs, Seq::<FontCharType>::empty()])
    } else {
        prepended(
            seq![glyphs.take(limit)],
            chunked_lines(glyphs.skip(limit), limit, pad),
        )
    }
}

/// The lines of `first` followed by those of `rest`, where there are any.
pub open spec fn prepended(
    first: Seq<Seq<FontCharType>>,
    rest: Option<Seq<Seq<FontCharType>>>,
) -> Option<Seq<Seq<FontCharType>>> {
    match rest {
        Some(lines) => Some(first + lines),
        None => None,
    }
}

/// The lines of a text in a block whose rows hold `limit` cells.
pub open spec fn laid_out(text: Seq<char>, wrap: bool, limit: int, pad: nat) -> Option<
    Seq<Seq<FontCharType>>,
> {
    if wrap {
        wrapped_lines(glyph_words(text), limit, pad)
    } else {
        chunked_lines(cp437_glyphs(text), limit, pad)
    }
}

/// Appends the glyphs of `src` from index `from` up to `to` to `dst`.
pub fn extend_glyphs(dst: &mut Vec<FontCharType>, src: &Vec<FontCharType>, from: usize, to: usize)
    requires
        from <= to <= src.len(),
    ensures
        final(dst)@ == old(dst)@ + src@.subrange(from as int, to as int),
{
    let mut i: usize = from;
    while i < to
        invariant
            from <= i <= to <= src.len(),
            dst@ == old(dst)@ + src@.subrange(from as int, i as int),
        decreases to - i,
    {
        dst.push(src[i]);
        i += 1;
        assert(dst@ =~= old(dst)@ + src@.subrange(from as int, i as int));
    }
}

/// Splits a text into its words at every space and converts each to glyphs.
pub fn split_words(text: &Vec<char>) -> (words: Vec<Vec<FontCharType>>)
    ensures
        lines_view(words@) == glyph_words(text@),
{
    let mut done: Vec<Vec<FontCharType>> = Vec::new();
    let mut current: Vec<FontCharType> = Vec::new();
    let mut i: usize = 0;
    assert(text@.take(0) =~= Seq::<char>::empty());
    assert(lines_view(done@).push(current@) =~= seq![Seq::<FontCharType>::empty()]);
    while i < text.len()
        invariant
            i <= text.len(),
            glyph_words(text@.take(i as int)) == lines_view(done@).push(current@),
        decreases text.len() - i,
    {
        let c = text[i];
        let ghost before = lines_view(done@).push(current@);
        proof {
            assert(text@.take(i + 1).drop_last() =~= text@.take(i as int));
            assert(text@.take(i + 1).last() == c);
        }
        if c == ' ' {
            done.push(current);
            current = Vec::new();
            assert(lines_view(done@).push(current@) =~= before.push(
                Seq::<FontCharType>::empty(),
            ));
        } else {
            current.push(to_cp437(c));
            assert(lines_view(done@).push(current@) =~= before.update(
                before.len() - 1,
                before.last().push(cp437_glyph(c)),
            ));
        }
        i += 1;
    }
    assert(text@.take(i as int) =~= text@);
    let ghost before = lines_view(done@).push(current@);
    done.push(current);
    assert(lines_view(done@) =~= before);
    done
}

/// Lays out words on lines of at most `limit` cells.
pub fn wrap_words(words: &Vec<Vec<FontCharType>>, limit: i32, pad: u32) -> (r: Option<
    Vec<Vec<FontCharType>>,
>)
    requires
        pad <= MAX_PADDING,
    ensures
        match wrapped_lines(lines_view(words@), limit as int, pad as nat) {
            Some(lines) => r is Some && lines_view(r->0@) == lines,
            None => r is None,
        },
{
    let ghost all = lines_view(words@);
    let mut done: Vec<Vec<FontCharType>> = Vec::new();
    let mut current: Vec<FontCharType> = Vec::new();
    let mut i: usize = 0;
    assert(all.take(0) =~= Seq::<Seq<FontCharType>>::empty());
    assert(lines_view(done@).push(current@) =~= seq![Seq::<FontCharType>::empty()]);
    while i < words.len()
        invariant
            i <= words.len(),
            pad <= MAX_PADDING,
            all == lines_view(words@),
            wrapped_lines(all.take(i as int), limit as int, pad as nat) == Some(
                lines_view(done@).push(current@),
            ),
        decreases words.len() - i,
    {
        let word = &words[i];
        let ghost before = lines_view(done@).push(current@);
        proof {
            assert(all.take(i + 1).drop_last() =~= all.take(i as int));
            assert(all.take(i + 1).last() == word@);
        }
        if current.len() > 0 {
            let ghost unspaced = current@;
            current.push(GLYPH_SPACE);
            assert(current@ =~= unspaced + seq![GLYPH_SPACE]);
            assert(lines_view(done@).push(current@) =~= push_to_last(before, seq![GLYPH_SPACE]));
        }
        let ghost spaced = lines_view(done@).push(current@);
        if word.len() > 0 {
            let used: u128 = padded(current.len(), pad);
            let need: u128 = padded(word.len(), pad);
            if limit >= 0 && used + need <= limit as u128 {
                extend_glyphs(&mut current, word, 0, word.len());
                assert(word@.subrange(0, word.len() as int) =~= word@);
                assert(lines_view(done@).push(current@) =~= push_to_last(spaced, word@));
            } else if limit >= 0 && need <= limit as u128 {
                done.push(current);
                current = Vec::new();
                extend_glyphs(&mut current, word, 0, word.len());
                assert(word@.subrange(0, word.len() as int) =~= word@);
                assert(current@ =~= word@);
                assert(lines_view(done@).push(current@) =~= spaced.push(word@));
            } else {
                proof {
                    lemma_wrapped_none_stays(all, i + 1, limit as int, pad as nat);
                }
                return None;
            }
        }
        i += 1;
    }
    assert(all.take(i as int) =~= all);
    let ghost before = lines_view(done@).push(current@);
    done.push(current);
    assert(lines_view(done@) =~= before);
    Some(done)
}

/// Once a word cannot be placed, no later word changes that.
pub proof fn lemma_wrapped_none_stays(
    words: Seq<Seq<FontCharType>>,
    upto: int,
    limit: int,
    pad: nat,
)
    requires
        0 <= upto <= words.len(),
        wrapped_lines(words.take(upto), limit, pad) is None,
    ensures
        wrapped_lines(words, limit, pad) is None,
    decreases words.len() - upto,
{
    if upto == words.len() {
        assert(words.take(upto) =~= words);
    } else {
        assert(words.take(upto + 1).drop_last() =~= words.take(upto));
        lemma_wrapped_none_stays(words, upto + 1, limit, pad);
    }
}

/// Words are laid out on at least one line.
pub proof fn lemma_wrapped_not_empty(words: Seq<Seq<FontCharType>>, limit: int, pad: nat)
    ensures
        wrapped_lines(words, limit, pad) is Some ==> wrapped_lines(words, limit, pad)->0.len() > 0,
    decreases words.len(),
{
    if words.len() > 0 {
        lemma_wrapped_not_empty(words.drop_last(), limit, pad);
    }
}

/// Glyphs are cut into at least one line.
pub proof fn lemma_chunked_not_empty(glyphs: Seq<FontCharType>, limit: int, pad: nat)
    ensures
        chunked_lines(glyphs, limit, pad) is Some ==> chunked_lines(glyphs, limit, pad)->0.len()
            > 0,
    decreases glyphs.len(),
{
    if glyphs.len() > 0 && padded_len(glyphs.len(), pad) > limit && limit > 0 && glyphs.len()
        > limit {
        lemma_chunked_not_empty(glyphs.skip(limit), limit, pad);
    }
}

/// A text that is cut into lines loses no glyph and gains none: its lines
/// one after the other are the text. No line holds more glyphs than the
/// limit.
pub proof fn lemma_chunked_lines_cover(glyphs: Seq<FontCharType>, limit: int, pad: nat)
    requires
        chunked_lines(glyphs, limit, pad) is Some,
    ensures
        chunked_lines(glyphs, limit, pad)->0.flatten() == glyphs,
        forall|i: int|
            0 <= i < chunked_lines(glyphs, limit, pad)->0.len() ==> (#[trigger] chunked_lines(
                glyphs,
                limit,
                pad,
            )->0[i]).len() <= at_least_zero(limit),
    decreases glyphs.len(),
{
    let lines = chunked_lines(glyphs, limit, pad)->0;
    if glyphs.len() == 0 || padded_len(glyphs.len(), pad) <= limit {
        lines.lemma_flatten_one_element();
    } else if glyphs.len() <= limit {
        let rest = lines.drop_first();
        rest.lemma_flatten_one_element();
        assert(rest.first() =~= Seq::<FontCharType>::empty());
        assert(lines.flatten() =~= glyphs);
    } else {
        let tail = chunked_lines(glyphs.skip(limit), limit, pad)->0;
        lemma_chunked_lines_cover(glyphs.skip(limit), limit, pad);
        assert(lines.drop_first() =~= tail);
        assert(lines.flatten() =~= glyphs.take(limit) + glyphs.skip(limit));
        assert(glyphs.take(limit) + glyphs.skip(limit) =~= glyphs);
        assert forall|i: int| 0 <= i < lines.len() implies (#[trigger] lines[i]).len()
            <= at_least_zero(limit) by {
            if i > 0 {
                assert(lines[i] == tail[i - 1]);
            }
        }
    }
}

/// The glyphs that are not spaces, in order.
pub open spec fn without_spaces(glyphs: Seq<FontCharType>) -> Seq<FontCharType>
    decreases glyphs.len(),
{
    if glyphs.len() == 0 {
        Seq::empty()
    } else if glyphs.last() == GLYPH_SPACE {
        without_spaces(glyphs.drop_last())
    } else {
        without_spaces(glyphs.drop_last()).push(glyphs.last())
    }
}

/// What is left of two runs of glyphs without their spaces is what is left
/// of the first followed by what is left of the second.
pub proof fn lemma_without_spaces_add(a: Seq<FontCharType>, b: Seq<FontCharType>)
    ensures
        without_spaces(a + b) == without_spaces(a) + without_spaces(b),
    decreases b.len(),
{
    if b.len() == 0 {
        assert(a + b =~= a);
        assert(without_spaces(a) + without_spaces(b) =~= without_spaces(a));
    } else {
        assert((a + b).drop_last() =~= a + b.drop_last());
        assert((a + b).last() == b.last());
        lemma_without_spaces_add(a, b.drop_last());
        assert(without_spaces(a + b) =~= without_spaces(a) + without_spaces(b));
    }
}

/// Of a single glyph nothing is left if it is a space, and the glyph if it
/// is not.
proof fn lemma_without_spaces_one(glyph: FontCharType)
    ensures
        without_spaces(seq![glyph]) == if glyph == GLYPH_SPACE {
            Seq::<FontCharType>::empty()
        } else {
            seq![glyph]
        },
{
    let one = seq![glyph];
    let none = one.drop_last();
    assert(none.len() == 0);
    assert(without_spaces(none) =~= Seq::<FontCharType>::empty());
    assert(one.last() == glyph);
    assert(without_spaces(none).push(glyph) =~= seq![glyph]);
}

/// The glyphs of a single line are that line.
proof fn lemma_flat_one(line: Seq<FontCharType>)
    ensures
        seq![line].flatten_alt() == line,
{
    let one = seq![line];
    let none = one.drop_last();
    assert(none.len() == 0);
    assert(none.flatten_alt() =~= Seq::<FontCharType>::empty());
    assert(one.last() == line);
    assert(one.flatten_alt() =~= line);
}

/// Glyphs added to the last line come last among the glyphs of all lines.
proof fn lemma_push_to_last_flat(lines: Seq<Seq<FontCharType>>, glyphs: Seq<FontCharType>)
    requires
        lines.len() > 0,
    ensures
        push_to_last(lines, glyphs).flatten_alt() == lines.flatten_alt() + glyphs,
{
    let pushed = push_to_last(lines, glyphs);
    assert(pushed.drop_last() =~= lines.drop_last());
    assert(pushed.flatten_alt() =~= lines.flatten_alt() + glyphs);
}

/// Placing a word adds the word to the glyphs of the lines, and at most a
/// space before it.
proof fn lemma_place_word_keeps(
    lines: Seq<Seq<FontCharType>>,
    word: Seq<FontCharType>,
    limit: int,
    pad: nat,
)
    requires
        lines.len() > 0,
        place_word(lines, word, limit, pad) is Some,
    ensures
        place_word(lines, word, limit, pad)->0.len() > 0,
        without_spaces(place_word(lines, word, limit, pad)->0.flatten_alt()) == without_spaces(
            lines.flatten_alt(),
        ) + without_spaces(word),
{
    let space = seq![GLYPH_SPACE];
    let spaced = if lines.last().len() > 0 {
        push_to_last(lines, space)
    } else {
        lines
    };
    lemma_without_spaces_one(GLYPH_SPACE);
    if lines.last().len() > 0 {
        lemma_push_to_last_flat(lines, space);
        lemma_without_spaces_add(lines.flatten_alt(), space);
    }
    assert(without_spaces(spaced.flatten_alt()) =~= without_spaces(lines.flatten_alt()));
    let placed = place_word(lines, word, limit, pad)->0;
    if word.len() == 0 {
        assert(without_spaces(word) =~= Seq::<FontCharType>::empty());
        assert(without_spaces(placed.flatten_alt()) =~= without_spaces(lines.flatten_alt())
            + without_spaces(word));
    } else if padded_len(spaced.last().len(), pad) + padded_len(word.len(), pad) <= limit {
        lemma_push_to_last_flat(spaced, word);
        lemma_without_spaces_add(spaced.flatten_alt(), word);
    } else {
        assert(placed.drop_last() =~= spaced);
        lemma_without_spaces_add(spaced.flatten_alt(), word);
    }
}

/// Wrapping keeps every glyph of every word, in order: what the lines hold
/// differs from the words one after the other by spaces alone.
pub proof fn lemma_wrapped_keeps_words(words: Seq<Seq<FontCharType>>, limit: int, pad: nat)
    requires
        wrapped_lines(words, limit, pad) is Some,
    ensures
        without_spaces(wrapped_lines(words, limit, pad)->0.flatten()) == without_spaces(
            words.flatten(),
        ),
    decreases words.len(),
{
    let lines = wrapped_lines(words, limit, pad)->0;
    lines.lemma_flatten_and_flatten_alt_are_equivalent();
    words.lemma_flatten_and_flatten_alt_are_equivalent();
    if words.len() == 0 {
        lemma_flat_one(Seq::<FontCharType>::empty());
        assert(words.flatten_alt() =~= Seq::<FontCharType>::empty());
    } else {
        let before = wrapped_lines(words.drop_last(), limit, pad)->0;
        lemma_wrapped_keeps_words(words.drop_last(), limit, pad);
        lemma_wrapped_not_empty(words.drop_last(), limit, pad);
        before.lemma_flatten_and_flatten_alt_are_equivalent();
        words.drop_last().lemma_flatten_and_flatten_alt_are_equivalent();
        lemma_place_word_keeps(before, words.last(), limit, pad);
        lemma_without_spaces_add(words.drop_last().flatten_alt(), words.last());
    }
}

/// Splitting a text into words drops its spaces and nothing else.
pub proof fn lemma_words_keep_text(text: Seq<char>)
    ensures
        glyph_words(text).len() > 0,
        without_spaces(glyph_words(text).flatten()) == without_spaces(cp437_glyphs(text)),
    decreases text.len(),
{
    let words = glyph_words(text);
    let glyphs = cp437_glyphs(text);
    words.lemma_flatten_and_flatten_alt_are_equivalent();
    if text.len() == 0 {
        lemma_flat_one(Seq::<FontCharType>::empty());
        assert(glyphs =~= Seq::<FontCharType>::empty());
    } else {
        let shorter = text.drop_last();
        let before = glyph_words(shorter);
        lemma_words_keep_text(shorter);
        before.lemma_flatten_and_flatten_alt_are_equivalent();
        assert(glyphs.drop_last() =~= cp437_glyphs(shorter));
        assert(glyphs.last() == cp437_glyph(text.last()));
        if text.last() == ' ' {
            assert(words.drop_last() =~= before);
            assert(words.flatten_alt() =~= before.flatten_alt());
        } else {
            let glyph = cp437_glyph(text.last());
            assert(glyph != GLYPH_SPACE);
            assert(words == push_to_last(before, seq![glyph])) by {
                assert(before.last().push(glyph) =~= before.last() + seq![glyph]);
            }
            lemma_push_to_last_flat(before, seq![glyph]);
            lemma_without_spaces_add(before.flatten_alt(), seq![glyph]);
            lemma_without_spaces_one(glyph);
            assert(without_spaces(glyphs) =~= without_spaces(glyphs.drop_last()) + seq![glyph]);
        }
    }
}

/// A text that is laid out loses no glyph and gains none but spaces: cut
/// into lines, the lines one after the other are the text; wrapped, they
/// differ from the text by spaces alone.
pub proof fn lemma_laid_out_keeps_text(text: Seq<char>, wrap: bool, limit: int, pad: nat)
    requires
        laid_out(text, wrap, limit, pad) is Some,
    ensures
        !wrap ==> laid_out(text, wrap, limit, pad)->0.flatten() == cp437_glyphs(text),
        without_spaces(laid_out(text, wrap, limit, pad)->0.flatten()) == without_spaces(
            cp437_glyphs(text),
        ),
{
    if wrap {
        lemma_words_keep_text(text);
        lemma_wrapped_keeps_words(glyph_words(text), limit, pad);
    } else {
        lemma_chunked_lines_cover(cp437_glyphs(text), limit, pad);
    }
}

/// The number of lines that `count` glyphs take when they are cut at every
/// `limit` glyphs: as many as are needed to hold them, and one for no
/// glyphs at all.
pub open spec fn chunk_count(count: nat, limit: int) -> int {
    if count == 0 {
        1
    } else {
        (count + limit - 1) / limit
    }
}

/// The glyphs from `from` up to `to`, or up to the last glyph if there
/// are fewer.
pub open spec fn glyphs_between(glyphs: Seq<FontCharType>, from: int, to: int) -> Seq<FontCharType> {
    glyphs.subrange(
        from,
        if to < glyphs.len() {
            to
        } else {
            glyphs.len() as int
        },
    )
}

/// As many lines as are needed hold fewer glyphs than that many full
/// lines and one more, and no fewer than one line less.
pub proof fn lemma_chunk_count(count: nat, limit: int)
    requires
        limit >= 1,
        count > 0,
    ensures
        chunk_count(count, limit) >= 1,
        (chunk_count(count, limit) - 1) * limit < count <= chunk_count(count, limit) * limit,
        count > limit ==> chunk_count(count, limit) == chunk_count((count - limit) as nat, limit)
            + 1,
        count <= limit ==> chunk_count(count, limit) == 1,
{
    let m = (count + limit - 1) / limit;
    assert(m * limit <= count + limit - 1 < (m + 1) * limit && m >= 1 && (m - 1) * limit == m
        * limit - limit && (m + 1) * limit == m * limit + limit) by (nonlinear_arith)
        requires
            m == (count + limit - 1) / limit,
            limit >= 1,
            count > 0,
    ;
    if count > limit {
        let rest = count - limit;
        let r = (rest + limit - 1) / limit;
        assert(r + 1 == m) by (nonlinear_arith)
            requires
                r == (rest + limit - 1) / limit,
                m == (rest + limit + limit - 1) / limit,
                limit >= 1,
                rest > 0,
        ;
    } else {
        assert(m == 1) by (nonlinear_arith)
            requires
                m * limit <= count + limit - 1 < (m + 1) * limit,
                0 < count <= limit,
                m >= 1,
        ;
    }
}

/// Without padding, a text that is cut into lines of `limit` glyphs goes in
/// order onto as many lines as are needed to hold it: line `k` holds the
/// glyphs from `k * limit` up to `k * limit + limit`, or up to the last
/// glyph. Every line but the last is full, and a text with glyphs leaves
/// no line empty.
pub proof fn lemma_chunked_lines_rows(glyphs: Seq<FontCharType>, limit: int)
    requires
        limit >= 1,
    ensures
        chunked_lines(glyphs, limit, 0) is Some,
        chunked_lines(glyphs, limit, 0)->0.len() == chunk_count(glyphs.len(), limit),
        forall|k: int|
            0 <= k < chunk_count(glyphs.len(), limit) ==> {
                &&& #[trigger] chunked_lines(glyphs, limit, 0)->0[k] == glyphs_between(
                    glyphs,
                    k * limit,
                    k * limit + limit,
                )
                &&& 0 <= k * limit <= glyphs.len()
                &&& k < chunk_count(glyphs.len(), limit) - 1 ==> chunked_lines(
                    glyphs,
                    limit,
                    0,
                )->0[k].len() == limit
                &&& chunked_lines(glyphs, limit, 0)->0[k].len() <= limit
                &&& glyphs.len() > 0 ==> chunked_lines(glyphs, limit, 0)->0[k].len() >= 1
            },
    decreases glyphs.len(),
{
    let n = glyphs.len();
    assert(padded_len(n, 0) == n);
    let lines = chunked_lines(glyphs, limit, 0)->0;
    if n == 0 || n <= limit {
        if n > 0 {
            lemma_chunk_count(n, limit);
        }
        assert(lines =~= seq![glyphs]);
        assert(0 * limit == 0) by (nonlinear_arith);
        assert(glyphs_between(glyphs, 0, 0 + limit) =~= glyphs);
    } else {
        lemma_chunk_count(n, limit);
        let rest = glyphs.skip(limit);
        lemma_chunked_lines_rows(rest, limit);
        let tail = chunked_lines(rest, limit, 0)->0;
        let m = chunk_count(n, limit);
        assert(lines =~= seq![glyphs.take(limit)] + tail);
        assert forall|k: int| 0 <= k < m implies {
            &&& #[trigger] lines[k] == glyphs_between(glyphs, k * limit, k * limit + limit)
            &&& 0 <= k * limit <= n
            &&& k < m - 1 ==> lines[k].len() == limit
            &&& lines[k].len() <= limit
            &&& lines[k].len() >= 1
        } by {
            if k == 0 {
                assert(0 * limit == 0) by (nonlinear_arith);
                assert(lines[0] =~= glyphs_between(glyphs, 0, 0 + limit));
            } else {
                assert((k - 1) * limit + limit == k * limit) by (nonlinear_arith);
                assert(lines[k] == tail[k - 1]);
                assert(tail[k - 1] == glyphs_between(rest, (k - 1) * limit, (k - 1) * limit + limit));
                assert(glyphs_between(rest, (k - 1) * limit, (k - 1) * limit + limit)
                    =~= glyphs_between(glyphs, k * limit, k * limit + limit));
            }
        }
    }
}

/// Cuts glyphs into lines of `limit` glyphs.
pub fn chunk_glyphs(glyphs: &Vec<FontCharType>, limit: i32, pad: u32) -> (r: Option<
    Vec<Vec<FontCharType>>,
>)
    requires
        pad <= MAX_PADDING,
    ensures
        match chunked_lines(glyphs@, limit as int, pad as nat) {
            Some(lines) => r is Some && lines_view(r->0@) == lines,
            None => r is None,
        },
{
    let mut done: Vec<Vec<FontCharType>> = Vec::new();
    if glyphs.len() == 0 {
        done.push(Vec::new());
        assert(glyphs@ =~= Seq::<FontCharType>::empty());
        assert(lines_view(done@) =~= seq![glyphs@]);
        return Some(done);
    }
    if limit <= 0 {
        return None;
    }
    let step: usize = limit as usize;
    let mut start: usize = 0;
    assert(glyphs@.skip(0) =~= glyphs@);
    assert(lines_view(done@) + seq![glyphs@] =~= seq![glyphs@]);
    loop
        invariant_except_break
            start < glyphs.len(),
            0 < limit,
            step == limit,
            pad <= MAX_PADDING,
            chunked_lines(glyphs@, limit as int, pad as nat) == prepended(
                lines_view(done@),
                chunked_lines(glyphs@.skip(start as int), limit as int, pad as nat),
            ),
        ensures
            chunked_lines(glyphs@, limit as int, pad as nat) == Some(lines_view(done@)),
        decreases glyphs.len() - start,
    {
        let left: usize = glyphs.len() - start;
        let ghost rest = glyphs@.skip(start as int);
        let ghost before = lines_view(done@);
        let mut line: Vec<FontCharType> = Vec::new();
        if padded(left, pad) <= limit as u128 {
            extend_glyphs(&mut line, glyphs, start, glyphs.len());
            assert(line@ =~= rest);
            done.push(line);
            assert(lines_view(done@) =~= before + seq![rest]);
            break ;
        } else if left <= step {
            extend_glyphs(&mut line, glyphs, start, glyphs.len());
            assert(line@ =~= rest);
            done.push(line);
            done.push(Vec::new());
            assert(lines_view(done@) =~= before + seq![rest, Seq::<FontCharType>::empty()]);
            break ;
        } else {
            extend_glyphs(&mut line, glyphs, start, start + step);
            assert(line@ =~= rest.take(limit as int));
            assert(rest.skip(limit as int) =~= glyphs@.skip(start + step));
            done.push(line);
            let ghost tail = chunked_lines(
                glyphs@.skip(start + step),
                limit as int,
                pad as nat,
            );
            assert(lines_view(done@) =~= before + seq![rest.take(limit as int)]);
            assert(tail is Some ==> (before + seq![rest.take(limit as int)]) + tail->0 =~= before
                + (seq![rest.take(limit as int)] + tail->0));
            start = start + step;
        }
    }
    Some(done)
}

/// Lays out a text for rows of `limit` cells: wrapped at its spaces, or cut
/// into lines of `limit` glyphs.
pub fn break_lines(text: &Vec<char>, wrap: bool, limit: i32, pad: u32) -> (r: Option<
    Vec<Vec<FontCharType>>,
>)
    requires
        pad <= MAX_PADDING,
    ensures
        match laid_out(text@, wrap, limit as int, pad as nat) {
            Some(lines) => r is Some && lines_view(r->0@) == lines,
            None => r is None,
        },
{
    if wrap {
        let words = split_words(text);
        wrap_words(&words, limit, pad)
    } else {
        let mut glyphs: Vec<FontCharType> = Vec::new();
        let mut i: usize = 0;
        while i < text.len()
            invariant
                i <= text.len(),
                glyphs@.len() == i,
                forall|k: int| 0 <= k < i ==> glyphs@[k] == cp437_glyph(#[trigger] text@[k]),
            decreases text.len() - i,
        {
            glyphs.push(to_cp437(text[i]));
            i += 1;
        }
        assert(glyphs@ =~= cp437_glyphs(text@));
        chunk_glyphs(&glyphs, limit, pad)
    }
}

} // verus!
