//! Comparing text.

use vstd::prelude::*;
use vstd::string::{StrSliceExecFns, StringExecFns};
use vstd::utf8::encode_utf8_decode_utf8;

verus! {

/// Whether two byte strings are the same.
pub fn bytes_eq(a: &[u8], b: &[u8]) -> (r: bool)
    ensures
        r == (a@ == b@),
{
    if a.len() != b.len() {
        return false;
    }
    let mut i: usize = 0;
    while i < a.len()
        invariant
            a@.len() == b@.len(),
            i <= a@.len(),
            forall|j: int| 0 <= j < i ==> a@[j] == b@[j],
        decreases a@.len() - i,
    {
        if a[i] != b[i] {
            return false;
        }
        i = i + 1;
    }
    assert(a@ =~= b@);
    true
}

/// Whether two strings are the same.
pub fn str_eq(a: &str, b: &str) -> (r: bool)
    ensures
        r == (a@ == b@),
{
    let r = bytes_eq(a.as_bytes(), b.as_bytes());
    proof {
        encode_utf8_decode_utf8(a@);
        encode_utf8_decode_utf8(b@);
    }
    r
}


/// The pieces of a text between separators. There is one piece more than
/// there are separators: a text without a separator is one piece, and two
/// separators side by side have an empty piece between them.
pub open spec fn split_on(text: Seq<char>, separator: char) -> Seq<Seq<char>>
    decreases text.len(),
{
    if text.len() == 0 {
        seq![Seq::<char>::empty()]
    } else {
        let before = split_on(text.drop_last(), separator);
        if text.last() == separator {
            before.push(Seq::<char>::empty())
        } else {
            before.drop_last().push(before.last().push(text.last()))
        }
    }
}

/// The views of a list of strings.
pub open spec fn views_of(strings: Seq<String>) -> Seq<Seq<char>> {
    Seq::new(strings.len(), |i: int| strings[i]@)
}

/// Splits a text at every separator.
pub fn split(text: &str, separator: char) -> (pieces: Vec<String>)
    ensures
        views_of(pieces@) == split_on(text@, separator),
{
    let mut pieces: Vec<String> = Vec::new();
    let mut start: usize = 0;
    let mut i: usize = 0;
    let len: usize = text.unicode_len();
    proof {
        assert(text@.subrange(0, 0) =~= Seq::<char>::empty());
        assert(views_of(pieces@).push(text@.subrange(0, 0)) =~= seq![Seq::<char>::empty()]);
    }
    while i < len
        invariant
            len == text@.len(),
            start <= i <= len,
            views_of(pieces@).push(text@.subrange(start as int, i as int)) == split_on(
                text@.subrange(0, i as int),
                separator,
            ),
        decreases len - i,
    {
        let c = text.get_char(i);
        proof {
            let next = text@.subrange(0, (i + 1) as int);
            assert(next.drop_last() =~= text@.subrange(0, i as int));
            assert(next.last() == c);
            let before = split_on(text@.subrange(0, i as int), separator);
            assert(before.drop_last() =~= views_of(pieces@));
            assert(before.last() == text@.subrange(start as int, i as int));
            assert(text@.subrange(start as int, i as int).push(c) =~= text@.subrange(
                start as int,
                (i + 1) as int,
            ));
        }
        if c == separator {
            let piece = String::from_str(text.substring_char(start, i));
            let ghost earlier = pieces@;
            pieces.push(piece);
            proof {
                assert(views_of(pieces@) =~= views_of(earlier).push(
                    text@.subrange(start as int, i as int),
                ));
                assert(text@.subrange((i + 1) as int, (i + 1) as int) =~= Seq::<char>::empty());
            }
            start = i + 1;
        }
        i = i + 1;
    }
    let piece = String::from_str(text.substring_char(start, len));
    let ghost earlier = pieces@;
    pieces.push(piece);
    proof {
        assert(views_of(pieces@) =~= views_of(earlier).push(
            text@.subrange(start as int, len as int),
        ));
        assert(text@.subrange(0, len as int) =~= text@);
    }
    pieces
}

} // verus!
