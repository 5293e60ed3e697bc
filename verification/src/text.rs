//! Character-level helpers for the wire formats: splitting on a separator
//! and comparing against fixed ASCII tags.
use vstd::prelude::*;

verus! {

broadcast use vstd::string::group_string_axioms;

/// `s` split on every occurrence of `sep`, as `str::split` does: `n`
/// separators give `n + 1` pieces, empty pieces included.
pub open spec fn split_on(s: Seq<char>, sep: char) -> Seq<Seq<char>>
    decreases s.len(),
{
    if s.len() == 0 {
        seq![Seq::<char>::empty()]
    } else {
        let prev = split_on(s.drop_last(), sep);
        if s.last() == sep {
            prev.push(Seq::<char>::empty())
        } else {
            prev.update(prev.len() - 1, prev.last().push(s.last()))
        }
    }
}

/// Whether `sep` occurs nowhere in `s`.
pub open spec fn free_of(s: Seq<char>, sep: char) -> bool {
    forall|i: int| 0 <= i < s.len() ==> s[i] != sep
}

pub proof fn lemma_split_nonempty(s: Seq<char>, sep: char)
    ensures
        split_on(s, sep).len() >= 1,
    decreases s.len(),
{
    if s.len() > 0 {
        lemma_split_nonempty(s.drop_last(), sep);
    }
}

/// A piece free of the separator splits into itself.
pub proof fn lemma_split_free(s: Seq<char>, sep: char)
    requires
        free_of(s, sep),
    ensures
        split_on(s, sep) == seq![s],
    decreases s.len(),
{
    if s.len() > 0 {
        lemma_split_free(s.drop_last(), sep);
        assert(s.drop_last().push(s.last()) =~= s);
        assert(split_on(s, sep) =~= seq![s]);
    } else {
        assert(s =~= Seq::<char>::empty());
    }
}

/// Splitting `x`, a separator, and `y` gives the pieces of `x` followed by
/// the pieces of `y`.
pub proof fn lemma_split_concat(x: Seq<char>, y: Seq<char>, sep: char)
    ensures
        split_on(x + seq![sep] + y, sep) == split_on(x, sep) + split_on(y, sep),
    decreases y.len(),
{
    let z = x + seq![sep] + y;
    if y.len() == 0 {
        assert(z.drop_last() =~= x);
        assert(split_on(z, sep) =~= split_on(x, sep) + split_on(y, sep));
    } else {
        lemma_split_concat(x, y.drop_last(), sep);
        lemma_split_nonempty(y.drop_last(), sep);
        lemma_split_nonempty(x, sep);
        assert(z.drop_last() =~= x + seq![sep] + y.drop_last());
        assert(z.last() == y.last());
        assert(split_on(z, sep) =~= split_on(x, sep) + split_on(y, sep));
    }
}

/// The pieces joined back together with `sep` between consecutive pieces.
pub open spec fn join_on(pieces: Seq<Seq<char>>, sep: char) -> Seq<char>
    decreases pieces.len(),
{
    if pieces.len() == 0 {
        Seq::<char>::empty()
    } else if pieces.len() == 1 {
        pieces[0]
    } else {
        join_on(pieces.drop_last(), sep) + seq![sep] + pieces.last()
    }
}

/// Joining the pieces of a split with its separator gives back the text.
pub proof fn lemma_split_join(s: Seq<char>, sep: char)
    ensures
        join_on(split_on(s, sep), sep) == s,
    decreases s.len(),
{
    if s.len() == 0 {
        assert(s =~= Seq::<char>::empty());
    } else {
        let prev = split_on(s.drop_last(), sep);
        lemma_split_join(s.drop_last(), sep);
        lemma_split_nonempty(s.drop_last(), sep);
        let pieces = split_on(s, sep);
        if s.last() == sep {
            assert(pieces.drop_last() =~= prev);
            assert(join_on(pieces, sep) =~= s);
        } else {
            if prev.len() == 1 {
                assert(join_on(pieces, sep) =~= s);
            } else {
                assert(pieces.drop_last() =~= prev.drop_last());
                assert(pieces.last() == prev.last().push(s.last()));
                assert(join_on(prev, sep) == join_on(prev.drop_last(), sep) + seq![sep] + prev.last());
                assert(join_on(pieces, sep) == join_on(prev.drop_last(), sep) + seq![sep]
                    + prev.last().push(s.last()));
                assert(s.drop_last().push(s.last()) =~= s);
                assert(join_on(pieces, sep) =~= s);
            }
        }
    }
}

/// Text that splits into four pieces is those pieces with the separator
/// between them.
pub proof fn lemma_four_pieces(s: Seq<char>, sep: char)
    requires
        split_on(s, sep).len() == 4,
    ensures
        ({
            let p = split_on(s, sep);
            s == p[0] + seq![sep] + p[1] + seq![sep] + p[2] + seq![sep] + p[3]
        }),
{
    let p = split_on(s, sep);
    lemma_split_join(s, sep);
    reveal_with_fuel(join_on, 4);
    assert(p.drop_last().drop_last().drop_last() =~= seq![p[0]]);
    assert(p.drop_last().drop_last() =~= seq![p[0], p[1]]);
    assert(p.drop_last() =~= seq![p[0], p[1], p[2]]);
}

/// The char-index bounds `[start, end)` of each piece of `s` split on `sep`.
pub fn split_bounds(s: &str, sep: char) -> (res: Vec<(usize, usize)>)
    ensures
        res@.len() == split_on(s@, sep).len(),
        forall|k: int|
            0 <= k < res@.len() ==> {
                &&& (#[trigger] res@[k]).0 <= res@[k].1 <= s@.len()
                &&& s@.subrange(res@[k].0 as int, res@[k].1 as int) == split_on(s@, sep)[k]
            },
{
    let n = s.unicode_len();
    let ghost text = s@;
    let mut done: Vec<(usize, usize)> = Vec::new();
    let mut start: usize = 0;
    let mut i: usize = 0;
    assert(text.take(0) =~= Seq::<char>::empty());
    for c in it: s.chars()
        invariant
            n == text.len(),
            text == s@,
            it.seq() == text,
            i == it.index(),
            i <= n,
            start <= i,
            split_on(text.take(i as int), sep).len() == done@.len() + 1,
            forall|k: int|
                0 <= k < done@.len() ==> {
                    &&& (#[trigger] done@[k]).0 <= done@[k].1 <= i
                    &&& text.subrange(done@[k].0 as int, done@[k].1 as int) == split_on(
                        text.take(i as int),
                        sep,
                    )[k]
                },
            split_on(text.take(i as int), sep).last() == text.subrange(start as int, i as int),
    {
        let ghost prev = split_on(text.take(i as int), sep);
        assert(text.take(i + 1).drop_last() =~= text.take(i as int));
        assert(text.take(i + 1).last() == c);
        if c == sep {
            done.push((start, i));
            start = i + 1;
        }
        assert(text.subrange(start as int, i + 1) =~= if c == sep {
            Seq::<char>::empty()
        } else {
            text.subrange(start as int, i as int).push(c)
        });
        i = i + 1;
    }
    assert(text.take(n as int) =~= text);
    done.push((start, n));
    done
}

/// Whether the characters of `s` between `start` and `end` are exactly `tag`.
pub fn range_equals(s: &str, start: usize, end: usize, tag: &str) -> (res: bool)
    requires
        start <= end <= s@.len(),
    ensures
        res == (s@.subrange(start as int, end as int) == tag@),
{
    let len = tag.unicode_len();
    if end - start != len {
        return false;
    }
    let mut k: usize = 0;
    while k < len
        invariant
            len == tag@.len(),
            end - start == len,
            start <= end <= s@.len(),
            k <= len,
            forall|j: int| 0 <= j < k ==> s@[start + j] == tag@[j],
        decreases len - k,
    {
        if s.get_char(start + k) != tag.get_char(k) {
            assert(s@.subrange(start as int, end as int)[k as int] != tag@[k as int]);
            return false;
        }
        k = k + 1;
    }
    assert(s@.subrange(start as int, end as int) =~= tag@);
    true
}

/// Whether two strings hold the same characters.
pub fn str_equal(a: &str, b: &str) -> (res: bool)
    ensures
        res == (a@ == b@),
{
    let n = a.unicode_len();
    let eq = range_equals(a, 0, n, b);
    proof {
        assert(a@.subrange(0, n as int) =~= a@);
    }
    eq
}

/// The bytes of the canonical base64url alphabet: ASCII letters, digits,
/// `-` and `_`.
pub open spec fn canonical_base64url_byte(byte: u8) -> bool {
    (65 <= byte <= 90) || (97 <= byte <= 122) || (48 <= byte <= 57) || byte == 45 || byte == 95
}

/// Whether `byte` belongs to the canonical base64url alphabet.
pub fn is_canonical_base64url_char(byte: u8) -> (res: bool)
    ensures
        res == canonical_base64url_byte(byte),
{
    (65 <= byte && byte <= 90) || (97 <= byte && byte <= 122) || (48 <= byte && byte <= 57)
        || byte == 45 || byte == 95
}

/// Whether every byte of `bytes` belongs to the canonical base64url alphabet.
pub fn all_canonical_base64url(bytes: &[u8]) -> (res: bool)
    ensures
        res == (forall|i: int| 0 <= i < bytes@.len() ==> canonical_base64url_byte(#[trigger] bytes@[i])),
{
    let mut i: usize = 0;
    while i < bytes.len()
        invariant
            i <= bytes@.len(),
            forall|j: int| 0 <= j < i ==> canonical_base64url_byte(#[trigger] bytes@[j]),
        decreases bytes@.len() - i,
    {
        if !is_canonical_base64url_char(bytes[i]) {
            return false;
        }
        i = i + 1;
    }
    true
}

/// Text made of base64url alphabet characters is ASCII, and its UTF-8 bytes
/// are its characters, each in the canonical alphabet.
pub proof fn lemma_b64url_text_bytes(s: Seq<char>)
    requires
        forall|i: int| 0 <= i < s.len() ==> crate::primitives::base64url::is_b64url_char(#[trigger] s[i]),
    ensures
        vstd::utf8::encode_utf8(s).len() == s.len(),
        forall|i: int| 0 <= i < s.len() ==> canonical_base64url_byte(#[trigger] vstd::utf8::encode_utf8(s)[i]),
{
    assert(vstd::utf8::is_ascii_chars(s)) by {
        assert forall|i: int| 0 <= i < s.len() implies '\0' <= #[trigger] s[i] <= '\u{7f}' by {
            assert(crate::primitives::base64url::is_b64url_char(s[i]));
        }
    }
    vstd::utf8::is_ascii_chars_encode_utf8(s);
    assert forall|i: int| 0 <= i < s.len() implies canonical_base64url_byte(#[trigger] vstd::utf8::encode_utf8(s)[i]) by {
        assert(crate::primitives::base64url::is_b64url_char(s[i]));
        assert(s[i] as u8 == vstd::utf8::encode_utf8(s)[i]);
    }
}

} // verus!
