//! Operations on text that the router and the handlers share: comparing two
//! strings, cutting a string at a separator, and putting strings together.

use vstd::prelude::*;
use vstd::string::*;
use vstd::utf8::*;

verus! {

/// Whether two strings hold the same characters.
pub fn same_text(a: &str, b: &str) -> (r: bool)
    ensures
        r == (a@ == b@),
{
    let left = a.as_bytes();
    let right = b.as_bytes();
    proof {
        encode_utf8_decode_utf8(a@);
        encode_utf8_decode_utf8(b@);
    }
    if left.len() != right.len() {
        return false;
    }
    let mut i: usize = 0;
    while i < left.len()
        invariant
            i <= left.len(),
            left.len() == right.len(),
            left@ == a.spec_bytes(),
            right@ == b.spec_bytes(),
            forall|j: int| 0 <= j < i ==> left@[j] == right@[j],
        decreases left.len() - i,
    {
        if left[i] != right[i] {
            return false;
        }
        i += 1;
    }
    assert(left@ =~= right@);
    true
}

/// The pieces of `text` that lie between occurrences of `sep`, in order.
/// A text without the separator is one piece; two separators in a row
/// enclose an empty piece, and so does a separator at either end.
pub open spec fn split(text: Seq<char>, sep: char) -> Seq<Seq<char>>
    decreases text.len(),
{
    if text.len() == 0 {
        seq![Seq::<char>::empty()]
    } else {
        let before = split(text.drop_last(), sep);
        if text.last() == sep {
            before.push(Seq::<char>::empty())
        } else {
            before.drop_last().push(before.last().push(text.last()))
        }
    }
}

/// The pieces joined again, with `sep` between neighbours.
pub open spec fn join(pieces: Seq<Seq<char>>, sep: char) -> Seq<char>
    decreases pieces.len(),
{
    if pieces.len() == 0 {
        Seq::<char>::empty()
    } else if pieces.len() == 1 {
        pieces[0]
    } else {
        join(pieces.drop_last(), sep).push(sep) + pieces.last()
    }
}

/// The views of a vector of strings.
pub open spec fn texts(items: Seq<String>) -> Seq<Seq<char>> {
    items.map_values(|s: String| s@)
}

/// Splitting always yields at least one piece.
pub proof fn lemma_split_nonempty(text: Seq<char>, sep: char)
    ensures
        split(text, sep).len() >= 1,
    decreases text.len(),
{
    if text.len() > 0 {
        lemma_split_nonempty(text.drop_last(), sep);
    }
}

/// No piece of a split holds the separator.
pub proof fn lemma_split_pieces_hold_no_separator(text: Seq<char>, sep: char)
    ensures
        forall|i: int| 0 <= i < split(text, sep).len() ==> !(#[trigger] split(text, sep)[i]).contains(sep),
    decreases text.len(),
{
    if text.len() > 0 {
        let before = split(text.drop_last(), sep);
        lemma_split_nonempty(text.drop_last(), sep);
        lemma_split_pieces_hold_no_separator(text.drop_last(), sep);
        assert forall|i: int| 0 <= i < split(text, sep).len() implies !(#[trigger] split(
            text,
            sep,
        )[i]).contains(sep) by {
            if i < before.len() - 1 {
                assert(split(text, sep)[i] == before[i]);
            } else if text.last() != sep && i == before.len() - 1 {
                let grown = before.last().push(text.last());
                assert(split(text, sep)[i] == grown);
                assert(!before[before.len() - 1].contains(sep));
                if grown.contains(sep) {
                    let k = choose|k: int| 0 <= k < grown.len() && grown[k] == sep;
                    assert(k < before.last().len());
                    assert(before.last()[k] == sep);
                }
            } else if text.last() != sep {
            } else if i == before.len() - 1 {
                assert(split(text, sep)[i] == before[i]);
            } else {
                assert(split(text, sep)[i] == Seq::<char>::empty());
            }
        }
    }
}

/// Joining the pieces of a split gives the text back.
pub proof fn lemma_join_split(text: Seq<char>, sep: char)
    ensures
        join(split(text, sep), sep) == text,
    decreases text.len(),
{
    if text.len() > 0 {
        let shorter = text.drop_last();
        let before = split(shorter, sep);
        lemma_split_nonempty(shorter, sep);
        lemma_join_split(shorter, sep);
        if text.last() == sep {
            let now = before.push(Seq::<char>::empty());
            assert(now.drop_last() == before);
            assert(join(now, sep) == join(before, sep).push(sep) + Seq::<char>::empty());
            assert(join(now, sep) == shorter.push(sep));
            assert(shorter.push(sep) == text);
        } else {
            let grown = before.last().push(text.last());
            let now = before.drop_last().push(grown);
            assert(now.drop_last() == before.drop_last());
            if before.len() == 1 {
                assert(join(now, sep) == grown);
                assert(before.last() == shorter);
            } else {
                assert(join(now, sep) == join(before.drop_last(), sep).push(sep) + grown);
                assert(join(before, sep) == join(before.drop_last(), sep).push(sep)
                    + before.last());
                assert(join(now, sep) == (join(before.drop_last(), sep).push(sep)
                    + before.last()).push(text.last()));
            }
            assert(shorter.push(text.last()) == text);
        }
    } else {
        assert(join(split(text, sep), sep) == text);
    }
}

/// Cuts `text` at every occurrence of `sep`.
pub fn split_text(text: &str, sep: char) -> (pieces: Vec<String>)
    ensures
        texts(pieces@) == split(text@, sep),
{
    let count = text.unicode_len();
    let mut pieces: Vec<String> = Vec::new();
    let mut start: usize = 0;
    let mut i: usize = 0;
    assert(text@.take(0) == Seq::<char>::empty());
    assert(texts(pieces@).push(text@.subrange(0, 0)) == split(text@.take(0), sep));
    while i < count
        invariant
            count == text@.len(),
            start <= i <= count,
            texts(pieces@).push(text@.subrange(start as int, i as int)) == split(
                text@.take(i as int),
                sep,
            ),
        decreases count - i,
    {
        let c = text.get_char(i);
        let ghost seen = text@.take(i as int);
        let ghost next = text@.take(i + 1);
        let ghost open = text@.subrange(start as int, i as int);
        assert(next.drop_last() == seen);
        assert(next.last() == c);
        if c == sep {
            let piece = text.substring_char(start, i).to_owned();
            let ghost earlier = texts(pieces@);
            pieces.push(piece);
            assert(texts(pieces@) == earlier.push(open));
            start = i + 1;
            assert(text@.subrange(start as int, i + 1) == Seq::<char>::empty());
        } else {
            assert(text@.subrange(start as int, i + 1) == open.push(c));
            assert(texts(pieces@).push(open).drop_last() == texts(pieces@));
        }
        i += 1;
    }
    assert(text@.take(count as int) == text@);
    let piece = text.substring_char(start, count).to_owned();
    let ghost earlier = texts(pieces@);
    pieces.push(piece);
    assert(texts(pieces@) == earlier.push(text@.subrange(start as int, count as int)));
    pieces
}

/// A text that does not hold the separator is a single piece.
pub proof fn lemma_split_without_separator(text: Seq<char>, sep: char)
    requires
        !text.contains(sep),
    ensures
        split(text, sep) == seq![text],
    decreases text.len(),
{
    if text.len() > 0 {
        let shorter = text.drop_last();
        assert forall|i: int| 0 <= i < shorter.len() implies shorter[i] != sep by {
            assert(shorter[i] == text[i]);
            assert(text.contains(text[i]));
        }
        lemma_split_without_separator(shorter, sep);
        assert(text.contains(text.last()));
        assert(shorter.push(text.last()) == text);
        assert(seq![shorter].last() == shorter);
        assert(seq![shorter].drop_last().push(text) == seq![text]);
    } else {
        assert(text == Seq::<char>::empty());
    }
}

/// Cutting two texts with a separator between them gives the pieces of the
/// first followed by the pieces of the second.
pub proof fn lemma_split_at_separator(left: Seq<char>, right: Seq<char>, sep: char)
    ensures
        split(left.push(sep) + right, sep) == split(left, sep) + split(right, sep),
    decreases right.len(),
{
    let whole = left.push(sep) + right;
    lemma_split_nonempty(left, sep);
    if right.len() == 0 {
        assert(whole == left.push(sep));
        assert(whole.drop_last() == left);
        assert(split(whole, sep) == split(left, sep).push(Seq::<char>::empty()));
        assert(split(left, sep).push(Seq::<char>::empty()) == split(left, sep) + split(
            right,
            sep,
        ));
    } else {
        let shorter = right.drop_last();
        lemma_split_at_separator(left, shorter, sep);
        lemma_split_nonempty(shorter, sep);
        assert(whole.drop_last() == left.push(sep) + shorter);
        assert(whole.last() == right.last());
        let before = split(left, sep) + split(shorter, sep);
        assert(before.last() == split(shorter, sep).last());
        assert(before.drop_last() == split(left, sep) + split(shorter, sep).drop_last());
        if right.last() == sep {
            assert(before.push(Seq::<char>::empty()) == split(left, sep) + split(
                shorter,
                sep,
            ).push(Seq::<char>::empty()));
        } else {
            let grown = before.last().push(right.last());
            assert(before.drop_last().push(grown) == split(left, sep) + split(
                shorter,
                sep,
            ).drop_last().push(grown));
        }
    }
}

} // verus!
