//! Splitting text at a separator.

use vstd::prelude::*;
use vstd::string::{StrSliceExecFns, StringExecFns};

verus! {

/// The pieces that `text` falls into at each `sep`, in order. There is
/// always at least one piece: text without `sep` is its own single piece,
/// and text that ends in `sep` ends in an empty piece.
pub open spec fn pieces(text: Seq<char>, sep: char) -> Seq<Seq<char>>
    decreases text.len(),
{
    if text.len() == 0 {
        seq![Seq::empty()]
    } else {
        let before = pieces(text.drop_last(), sep);
        if text.last() == sep {
            before.push(Seq::empty())
        } else {
            before.update(before.len() - 1, before.last().push(text.last()))
        }
    }
}

/// What the strings spell.
pub open spec fn texts(parts: Seq<String>) -> Seq<Seq<char>> {
    parts.map_values(|part: String| part@)
}

/// There is always a piece.
pub proof fn lemma_pieces_not_empty(text: Seq<char>, sep: char)
    ensures
        pieces(text, sep).len() >= 1,
    decreases text.len(),
{
    if text.len() > 0 {
        lemma_pieces_not_empty(text.drop_last(), sep);
    }
}

/// Splits `text` at each `sep`.
pub fn split(text: &str, sep: char) -> (parts: Vec<String>)
    ensures
        texts(parts@) == pieces(text@, sep),
        parts@.len() >= 1,
{
    let n = text.unicode_len();
    let mut parts: Vec<String> = Vec::new();
    let mut start: usize = 0;
    let mut i: usize = 0;
    proof {
        assert(text@.take(0) =~= Seq::<char>::empty());
        assert(texts(parts@).push(text@.subrange(0, 0)) =~= seq![Seq::<char>::empty()]);
    }
    while i < n
        invariant
            start <= i <= n,
            n == text@.len(),
            pieces(text@.take(i as int), sep) == texts(parts@).push(
                text@.subrange(start as int, i as int),
            ),
        decreases n - i,
    {
        proof {
            assert(text@.take(i + 1).drop_last() =~= text@.take(i as int));
            assert(text@.subrange(start as int, i as int).push(text@[i as int])
                =~= text@.subrange(start as int, i + 1));
        }
        if text.get_char(i) == sep {
            let ghost before = parts@;
            let ghost from = start as int;
            parts.push(String::from_str(text.substring_char(start, i)));
            start = i + 1;
            proof {
                assert(texts(parts@) =~= texts(before).push(text@.subrange(from, i as int)));
                assert(text@.subrange(start as int, start as int) =~= Seq::<char>::empty());
            }
        }
        i = i + 1;
    }
    let ghost before = parts@;
    parts.push(String::from_str(text.substring_char(start, n)));
    proof {
        assert(text@.take(n as int) =~= text@);
        assert(texts(parts@) =~= texts(before).push(text@.subrange(start as int, n as int)));
    }
    parts
}

/// The piece of `text` at position `k`, counted from 0, where there is one.
pub fn piece(text: &str, sep: char, k: usize) -> (res: Option<String>)
    ensures
        res matches Some(part) ==> k < pieces(text@, sep).len() && part@ == pieces(
            text@,
            sep,
        )[k as int],
        res is None ==> k >= pieces(text@, sep).len(),
{
    let parts = split(text, sep);
    if k < parts.len() {
        assert(texts(parts@)[k as int] == parts@[k as int]@);
        Some(parts[k].clone())
    } else {
        None
    }
}

/// The last piece of `text`: what follows the last `sep`, or all of `text`
/// where there is no `sep`.
pub fn last_piece(text: &str, sep: char) -> (part: String)
    ensures
        part@ == pieces(text@, sep).last(),
{
    let parts = split(text, sep);
    let k = parts.len() - 1;
    assert(texts(parts@)[k as int] == parts@[k as int]@);
    parts[k].clone()
}

} // verus!
