//! Character and string primitives.
//!
//! The Unicode classifications and case mappings come from the standard
//! library and are only named here, not reimplemented: each wrapper's contract
//! ties the runtime result to an uninterpreted spec-level name.  Everything
//! built on top of them (splitting, trimming, comparing) is verified code.

use vstd::prelude::*;

verus! {

/// What `char::is_alphanumeric` returns for a character.
pub uninterp spec fn is_alphanumeric_char(c: char) -> bool;

/// What `char::is_whitespace` returns for a character.
pub uninterp spec fn is_whitespace_char(c: char) -> bool;

/// The character sequence `char::to_uppercase` yields for a character.
pub uninterp spec fn uppercase_of_char(c: char) -> Seq<char>;

/// The character sequence `str::to_lowercase` yields for a string.
pub uninterp spec fn lowercase_of(s: Seq<char>) -> Seq<char>;

/// The character sequence `str::to_uppercase` yields for a string.
pub uninterp spec fn uppercase_of(s: Seq<char>) -> Seq<char>;

/// Relies on char::is_alphanumeric: the Unicode alphanumeric classification.
#[verifier::external_body]
pub(crate) fn char_is_alphanumeric(c: char) -> (r: bool)
    ensures
        r == is_alphanumeric_char(c),
{
    c.is_alphanumeric()
}

/// Relies on char::is_whitespace: the Unicode whitespace classification.
#[verifier::external_body]
pub(crate) fn char_is_whitespace(c: char) -> (r: bool)
    ensures
        r == is_whitespace_char(c),
{
    c.is_whitespace()
}

/// Relies on char::to_uppercase: the Unicode uppercase mapping of one
/// character, which depends on the character alone.
#[verifier::external_body]
pub(crate) fn char_to_uppercase(c: char) -> (r: String)
    ensures
        r@ == uppercase_of_char(c),
{
    c.to_uppercase().collect()
}

/// Relies on str::to_lowercase: the result depends on the characters alone.
#[verifier::external_body]
pub(crate) fn str_to_lowercase(s: &str) -> (r: String)
    ensures
        r@ == lowercase_of(s@),
{
    s.to_lowercase()
}

/// Relies on str::to_uppercase: the result depends on the characters alone.
#[verifier::external_body]
pub(crate) fn str_to_uppercase(s: &str) -> (r: String)
    ensures
        r@ == uppercase_of(s@),
{
    s.to_uppercase()
}

/// Relies on String::push: appends the character to the end of the string.
#[verifier::external_body]
pub(crate) fn push_char(s: &mut String, c: char)
    ensures
        final(s)@ == old(s)@.push(c),
{
    s.push(c);
}

/// Character-wise string equality.
pub fn str_eq(a: &str, b: &str) -> (r: bool)
    ensures
        r == (a@ == b@),
{
    let na = a.unicode_len();
    let nb = b.unicode_len();
    if na != nb {
        proof {
            assert(a@ != b@) by {
                if a@ == b@ {
                    assert(a@.len() == b@.len());
                }
            }
        }
        return false;
    }
    let mut i: usize = 0;
    while i < na
        invariant
            na == a@.len(),
            na == b@.len(),
            0 <= i <= na,
            forall|j: int| 0 <= j < i ==> a@[j] == b@[j],
        decreases na - i,
    {
        if a.get_char(i) != b.get_char(i) {
            proof {
                assert(a@ != b@) by {
                    if a@ == b@ {
                        assert(a@[i as int] == b@[i as int]);
                    }
                }
            }
            return false;
        }
        i = i + 1;
    }
    proof {
        assert(a@ =~= b@);
    }
    true
}

/// The parts of `s` cut at every occurrence of `sep`; a string without the
/// separator is one part, and the separator itself appears in no part.
pub open spec fn split_seq(s: Seq<char>, sep: char) -> Seq<Seq<char>>
    decreases s.len(),
{
    if s.len() == 0 {
        seq![Seq::<char>::empty()]
    } else if s.last() == sep {
        split_seq(s.drop_last(), sep).push(Seq::<char>::empty())
    } else {
        let r = split_seq(s.drop_last(), sep);
        r.update(r.len() - 1, r.last().push(s.last()))
    }
}

/// Splitting always yields at least one part.
pub proof fn lemma_split_seq_nonempty(s: Seq<char>, sep: char)
    ensures
        split_seq(s, sep).len() >= 1,
    decreases s.len(),
{
    if s.len() > 0 {
        lemma_split_seq_nonempty(s.drop_last(), sep);
    }
}

/// Splits `s` at every occurrence of `sep`.
pub fn split_char(s: &str, sep: char) -> (r: Vec<String>)
    ensures
        r@.map_values(|p: String| p@) == split_seq(s@, sep),
{
    let n = s.unicode_len();
    let mut parts: Vec<String> = Vec::new();
    let mut cur: String = String::new();
    let mut i: usize = 0;
    while i < n
        invariant
            n == s@.len(),
            0 <= i <= n,
            parts@.map_values(|p: String| p@).push(cur@) =~= split_seq(s@.take(i as int), sep),
        decreases n - i,
    {
        let c = s.get_char(i);
        proof {
            assert(s@.take(i + 1).drop_last() =~= s@.take(i as int));
            assert(s@.take(i + 1).last() == s@[i as int]);
            lemma_split_seq_nonempty(s@.take(i as int), sep);
        }
        let ghost old_parts = parts@;
        let ghost old_cur = cur@;
        if c == sep {
            parts.push(cur);
            cur = String::new();
            proof {
                assert(parts@.map_values(|p: String| p@) =~= old_parts.map_values(
                    |p: String| p@,
                ).push(old_cur));
                assert(parts@.map_values(|p: String| p@).push(cur@) =~= split_seq(
                    s@.take(i + 1),
                    sep,
                ));
            }
        } else {
            push_char(&mut cur, c);
            proof {
                let prev = old_parts.map_values(|p: String| p@).push(old_cur);
                assert(prev.last() == old_cur);
                assert(prev.update(prev.len() - 1, old_cur.push(c)) =~= old_parts.map_values(
                    |p: String| p@,
                ).push(old_cur.push(c)));
                assert(parts@.map_values(|p: String| p@).push(cur@) =~= split_seq(
                    s@.take(i + 1),
                    sep,
                ));
            }
        }
        i = i + 1;
    }
    proof {
        assert(s@.take(n as int) =~= s@);
    }
    let ghost old_parts = parts@;
    let ghost old_cur = cur@;
    parts.push(cur);
    proof {
        assert(parts@.map_values(|p: String| p@) =~= old_parts.map_values(|p: String| p@).push(
            old_cur,
        ));
    }
    parts
}

/// `s` with every leading whitespace character removed.
pub open spec fn trim_start_seq(s: Seq<char>) -> Seq<char>
    decreases s.len(),
{
    if s.len() > 0 && is_whitespace_char(s.first()) {
        trim_start_seq(s.drop_first())
    } else {
        s
    }
}

/// `s` with every trailing whitespace character removed.
pub open spec fn trim_end_seq(s: Seq<char>) -> Seq<char>
    decreases s.len(),
{
    if s.len() > 0 && is_whitespace_char(s.last()) {
        trim_end_seq(s.drop_last())
    } else {
        s
    }
}

/// `s` with leading and trailing whitespace removed.
pub open spec fn trim_seq(s: Seq<char>) -> Seq<char> {
    trim_end_seq(trim_start_seq(s))
}

/// Each part trimmed, with the parts that trim to nothing dropped and the
/// order of the rest kept.
pub open spec fn kept_parts(parts: Seq<Seq<char>>) -> Seq<Seq<char>>
    decreases parts.len(),
{
    if parts.len() == 0 {
        Seq::<Seq<char>>::empty()
    } else {
        let rest = kept_parts(parts.drop_last());
        let t = trim_seq(parts.last());
        if t.len() > 0 {
            rest.push(t)
        } else {
            rest
        }
    }
}

/// Removes leading and trailing whitespace.
pub fn trim(s: &str) -> (r: String)
    ensures
        r@ == trim_seq(s@),
{
    let n = s.unicode_len();
    let mut lo: usize = 0;
    proof {
        assert(s@.skip(0) =~= s@);
    }
    loop
        invariant
            n == s@.len(),
            0 <= lo <= n,
            trim_start_seq(s@) == trim_start_seq(s@.skip(lo as int)),
        ensures
            n == s@.len(),
            0 <= lo <= n,
            trim_start_seq(s@) == s@.skip(lo as int),
        decreases n - lo,
    {
        if lo == n {
            proof {
                assert(s@.skip(lo as int).len() == 0);
            }
            break;
        }
        let c = s.get_char(lo);
        proof {
            assert(s@.skip(lo as int).first() == s@[lo as int]);
        }
        if !char_is_whitespace(c) {
            break;
        }
        proof {
            assert(s@.skip(lo as int).drop_first() =~= s@.skip(lo + 1));
        }
        lo = lo + 1;
    }
    let mut hi: usize = n;
    proof {
        assert(s@.subrange(lo as int, n as int) =~= s@.skip(lo as int));
    }
    loop
        invariant
            n == s@.len(),
            0 <= lo <= hi <= n,
            trim_start_seq(s@) == s@.skip(lo as int),
            trim_end_seq(s@.skip(lo as int)) == trim_end_seq(s@.subrange(lo as int, hi as int)),
        ensures
            n == s@.len(),
            0 <= lo <= hi <= n,
            trim_start_seq(s@) == s@.skip(lo as int),
            trim_end_seq(s@.skip(lo as int)) == s@.subrange(lo as int, hi as int),
        decreases hi,
    {
        if hi == lo {
            proof {
                assert(s@.subrange(lo as int, hi as int).len() == 0);
            }
            break;
        }
        let c = s.get_char(hi - 1);
        proof {
            assert(s@.subrange(lo as int, hi as int).last() == s@[hi - 1]);
        }
        if !char_is_whitespace(c) {
            break;
        }
        proof {
            assert(s@.subrange(lo as int, hi as int).drop_last() =~= s@.subrange(
                lo as int,
                hi - 1,
            ));
        }
        hi = hi - 1;
    }
    proof {
        assert(s@.skip(lo as int) =~= s@.subrange(lo as int, n as int));
    }
    let piece = s.substring_char(lo, hi);
    piece.to_owned()
}

} // verus!
