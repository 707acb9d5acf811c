//! Cutting a chat line into its whitespace-delimited tokens.

use vstd::prelude::*;
use vstd::string::*;

verus! {

/// Whether `c` is white space in the sense of Unicode: one of the
/// characters with the property `White_Space`.
pub open spec fn is_whitespace(c: char) -> bool {
    let n = c as u32;
    ||| 0x09 <= n <= 0x0D
    ||| n == 0x20
    ||| n == 0x85
    ||| n == 0xA0
    ||| n == 0x1680
    ||| 0x2000 <= n <= 0x200A
    ||| n == 0x2028
    ||| n == 0x2029
    ||| n == 0x202F
    ||| n == 0x205F
    ||| n == 0x3000
}

/// Whether `c` separates tokens.
pub fn is_separator(c: char) -> (separates: bool)
    ensures
        separates == is_whitespace(c),
{
    let n: u32 = c as u32;
    (0x09 <= n && n <= 0x0D) || n == 0x20 || n == 0x85 || n == 0xA0 || n == 0x1680 || (0x2000 <= n
        && n <= 0x200A) || n == 0x2028 || n == 0x2029 || n == 0x202F || n == 0x205F || n == 0x3000
}

/// The first position at or after `from` that holds no white space, or the
/// length of `text` when there is none.
pub open spec fn token_start(text: Seq<char>, from: int) -> int
    decreases text.len() - from,
{
    if from < 0 || from >= text.len() || !is_whitespace(text[from]) {
        from
    } else {
        token_start(text, from + 1)
    }
}

/// The first position at or after `from` that holds white space, or the
/// length of `text` when there is none.
pub open spec fn token_end(text: Seq<char>, from: int) -> int
    decreases text.len() - from,
{
    if from < 0 || from >= text.len() || is_whitespace(text[from]) {
        from
    } else {
        token_end(text, from + 1)
    }
}

/// The tokens of `text` that start at or after `from`, as half-open ranges
/// of character positions, in the order in which they occur. A token is a
/// longest run of characters that are not white space.
pub open spec fn token_spans_from(text: Seq<char>, from: int) -> Seq<(int, int)>
    decreases text.len() - from,
{
    let start = token_start(text, from);
    let end = token_end(text, start);
    if from < 0 || start < from || start >= text.len() || end <= start || end > text.len() {
        Seq::empty()
    } else {
        seq![(start, end)] + token_spans_from(text, end)
    }
}

/// All tokens of `text`.
pub open spec fn token_spans(text: Seq<char>) -> Seq<(int, int)> {
    token_spans_from(text, 0)
}

/// Positions as mathematical integers.
pub open spec fn spans_view(spans: Seq<(usize, usize)>) -> Seq<(int, int)> {
    spans.map_values(|span: (usize, usize)| (span.0 as int, span.1 as int))
}

/// `token_start` stays within the text, does not move backwards, stops on
/// a character that is not white space or at the end, and skips nothing else.
pub proof fn lemma_token_start(text: Seq<char>, from: int)
    requires
        0 <= from <= text.len(),
    ensures
        from <= token_start(text, from) <= text.len(),
        token_start(text, from) < text.len() ==> !is_whitespace(text[token_start(text, from)]),
        forall|i: int| from <= i < token_start(text, from) ==> is_whitespace(#[trigger] text[i]),
    decreases text.len() - from,
{
    if from < text.len() && is_whitespace(text[from]) {
        lemma_token_start(text, from + 1);
    }
}

/// `token_end` stays within the text, does not move backwards, stops on
/// white space or at the end, and skips no white space.
pub proof fn lemma_token_end(text: Seq<char>, from: int)
    requires
        0 <= from <= text.len(),
    ensures
        from <= token_end(text, from) <= text.len(),
        token_end(text, from) < text.len() ==> is_whitespace(text[token_end(text, from)]),
        forall|i: int| from <= i < token_end(text, from) ==> !is_whitespace(#[trigger] text[i]),
    decreases text.len() - from,
{
    if from < text.len() && !is_whitespace(text[from]) {
        lemma_token_end(text, from + 1);
    }
}

/// Every token found from a position that is not inside a token lies within
/// the text, is not empty, holds no white space, and cannot be extended: it
/// is enclosed by white space or by the ends of the text. The tokens come in
/// the order of the text and do not touch.
pub proof fn lemma_token_spans(text: Seq<char>, from: int)
    requires
        0 <= from <= text.len(),
        from == 0 || from == text.len() || is_whitespace(text[from - 1]) || is_whitespace(
            text[from],
        ),
    ensures
        forall|k: int|
            0 <= k < token_spans_from(text, from).len() ==> {
                let span = #[trigger] token_spans_from(text, from)[k];
                &&& from <= span.0 < span.1 <= text.len()
                &&& forall|i: int| span.0 <= i < span.1 ==> !is_whitespace(#[trigger] text[i])
                &&& span.0 > 0 ==> is_whitespace(text[span.0 - 1])
                &&& span.1 < text.len() ==> is_whitespace(text[span.1])
            },
        forall|k: int, l: int|
            0 <= k < l < token_spans_from(text, from).len() ==> (#[trigger] token_spans_from(
                text,
                from,
            )[k]).1 < (#[trigger] token_spans_from(text, from)[l]).0,
    decreases text.len() - from,
{
    let start = token_start(text, from);
    lemma_token_start(text, from);
    if start < text.len() {
        let end = token_end(text, start);
        lemma_token_end(text, start);
        assert(end > start);
        lemma_token_spans(text, end);
        let rest = token_spans_from(text, end);
        let all = token_spans_from(text, from);
        assert(all =~= seq![(start, end)] + rest);
        assert forall|k: int| 0 <= k < all.len() implies {
            let span = #[trigger] all[k];
            &&& from <= span.0 < span.1 <= text.len()
            &&& forall|i: int| span.0 <= i < span.1 ==> !is_whitespace(#[trigger] text[i])
            &&& span.0 > 0 ==> is_whitespace(text[span.0 - 1])
            &&& span.1 < text.len() ==> is_whitespace(text[span.1])
        } by {
            if k == 0 {
                if start > 0 {
                    if start > from {
                        assert(is_whitespace(text[start - 1]));
                    }
                }
            } else {
                assert(all[k] == rest[k - 1]);
            }
        }
        assert forall|k: int, l: int| 0 <= k < l < all.len() implies (#[trigger] all[k]).1 < (
        #[trigger] all[l]).0 by {
            assert(all[l] == rest[l - 1]);
            if k == 0 {
                assert(is_whitespace(text[end]));
                assert(rest[l - 1].0 >= end);
                assert(!is_whitespace(text[rest[l - 1].0]));
            } else {
                assert(all[k] == rest[k - 1]);
            }
        }
    }
}

/// No character that is not white space is left out: every such position at
/// or after `from` lies in a token found from there.
pub proof fn lemma_tokens_cover(text: Seq<char>, from: int, position: int)
    requires
        0 <= from <= position < text.len(),
        !is_whitespace(text[position]),
    ensures
        exists|k: int|
            0 <= k < token_spans_from(text, from).len() && (#[trigger] token_spans_from(
                text,
                from,
            )[k]).0 <= position < token_spans_from(text, from)[k].1,
    decreases text.len() - from,
{
    let start = token_start(text, from);
    lemma_token_start(text, from);
    assert(start <= position) by {
        if position < start {
            assert(is_whitespace(text[position]));
        }
    }
    let end = token_end(text, start);
    lemma_token_end(text, start);
    let all = token_spans_from(text, from);
    let rest = token_spans_from(text, end);
    assert(all =~= seq![(start, end)] + rest);
    if position < end {
        assert(all[0].0 <= position < all[0].1);
    } else {
        assert(position != end);
        lemma_tokens_cover(text, end, position);
        let k = choose|k: int| 0 <= k < rest.len() && (#[trigger] rest[k]).0 <= position < rest[k].1;
        assert(all[k + 1] == rest[k]);
    }
}

/// Cuts `text` into its tokens.
pub fn split_tokens(text: &str) -> (spans: Vec<(usize, usize)>)
    ensures
        spans_view(spans@) == token_spans(text@),
        forall|k: int| 0 <= k < spans@.len() ==> (#[trigger] spans@[k]).0 < spans@[k].1 <= text@.len(),
{
    let len: usize = text.unicode_len();
    let mut spans: Vec<(usize, usize)> = Vec::new();
    let mut inside: bool = false;
    let mut start: usize = 0;
    let mut pos: usize = 0;
    for c in it: text.chars()
        invariant
            it.seq() == text@,
            pos == it.index(),
            len == text@.len(),
            0 <= start <= pos <= len,
            inside ==> start < pos && token_end(text@, start as int) == token_end(text@, pos as int),
            token_spans(text@) =~= spans_view(spans@) + (if inside {
                seq![(start as int, token_end(text@, pos as int))] + token_spans_from(
                    text@,
                    token_end(text@, pos as int),
                )
            } else {
                token_spans_from(text@, pos as int)
            }),
            forall|k: int| 0 <= k < spans@.len() ==> (#[trigger] spans@[k]).0 < spans@[k].1 <= len,
    {
        let blank = is_separator(c);
        proof {
            lemma_token_end(text@, pos as int + 1);
        }
        if inside {
            if blank {
                let ghost so_far = spans@;
                spans.push((start, pos));
                inside = false;
                proof {
                    assert(token_end(text@, pos as int) == pos);
                    assert(token_start(text@, pos as int) == token_start(text@, pos as int + 1));
                    assert(spans_view(spans@) =~= spans_view(so_far).push((start as int, pos as int)));
                }
            }
        } else {
            if blank {
                proof {
                    assert(token_start(text@, pos as int) == token_start(text@, pos as int + 1));
                }
            } else {
                start = pos;
                inside = true;
                proof {
                    assert(token_start(text@, pos as int) == pos);
                }
            }
        }
        pos = pos + 1;
    }
    if inside {
        let ghost so_far = spans@;
        spans.push((start, len));
        proof {
            assert(spans_view(spans@) =~= spans_view(so_far).push((start as int, len as int)));
        }
    }
    spans
}

} // verus!
