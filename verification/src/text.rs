//! Small verified building blocks for strings: equality, repetition,
//! trimming, and newline stripping.

use vstd::prelude::*;
use vstd::string::*;

verus! {

/// ASCII whitespace, as trimmed from the tail of rendered values.
pub open spec fn is_space(c: char) -> bool {
    c == ' ' || c == '\t' || c == '\n' || c == '\r'
}

/// The character `c` repeated `n` times.
pub open spec fn repeat_char(c: char, n: nat) -> Seq<char> {
    Seq::new(n, |i: int| c)
}

/// `s` with every trailing whitespace character removed.
pub open spec fn trim_end_spec(s: Seq<char>) -> Seq<char>
    decreases s.len(),
{
    if s.len() > 0 && is_space(s.last()) {
        trim_end_spec(s.drop_last())
    } else {
        s
    }
}

/// `s` with every newline character removed.
pub open spec fn strip_nl_spec(s: Seq<char>) -> Seq<char>
    decreases s.len(),
{
    if s.len() == 0 {
        Seq::empty()
    } else if s.last() == '\n' {
        strip_nl_spec(s.drop_last())
    } else {
        strip_nl_spec(s.drop_last()).push(s.last())
    }
}

/// `a` and `b` joined by a single space, except that an empty side
/// contributes neither itself nor the space.
pub open spec fn sep_concat(a: Seq<char>, b: Seq<char>) -> Seq<char> {
    if a.len() == 0 {
        b
    } else if b.len() == 0 {
        a
    } else {
        a.push(' ') + b
    }
}

/// Appends `b` to `a`, inserting a single space between two non-empty parts.
pub fn sep_append(a: String, b: &str) -> (r: String)
    ensures
        r@ == sep_concat(a@, b@),
{
    if a.as_str().is_empty() {
        b.to_owned()
    } else if b.is_empty() {
        a
    } else {
        proof {
            reveal_strlit(" ");
        }
        let ghost av = a@;
        let mut r = a;
        r.append(" ");
        r.append(b);
        proof {
            assert(r@ =~= sep_concat(av, b@));
        }
        r
    }
}

/// True iff the two string slices hold the same characters.
pub fn str_eq(a: &str, b: &str) -> (r: bool)
    ensures
        r == (a@ == b@),
{
    let x: String = a.to_owned();
    let y: String = b.to_owned();
    x == y
}

/// Executable test for [`is_space`].
pub fn is_space_char(c: char) -> (r: bool)
    ensures
        r == is_space(c),
{
    c == ' ' || c == '\t' || c == '\n' || c == '\r'
}

/// A string of `n` spaces.
pub fn spaces(n: usize) -> (r: String)
    ensures
        r@ == repeat_char(' ', n as nat),
{
    let mut r = String::new();
    let mut i: usize = 0;
    while i < n
        invariant
            i <= n,
            r@ == repeat_char(' ', i as nat),
        decreases n - i,
    {
        proof {
            reveal_strlit(" ");
        }
        r.append(" ");
        proof {
            assert(r@ =~= repeat_char(' ', (i + 1) as nat));
        }
        i += 1;
    }
    r
}

/// A string of `n` dashes.
pub fn dashes(n: usize) -> (r: String)
    ensures
        r@ == repeat_char('-', n as nat),
{
    let mut r = String::new();
    let mut i: usize = 0;
    while i < n
        invariant
            i <= n,
            r@ == repeat_char('-', i as nat),
        decreases n - i,
    {
        proof {
            reveal_strlit("-");
        }
        r.append("-");
        proof {
            assert(r@ =~= repeat_char('-', (i + 1) as nat));
        }
        i += 1;
    }
    r
}

/// Removes trailing ASCII whitespace.
pub fn trim_end(s: &str) -> (r: String)
    ensures
        r@ == trim_end_spec(s@),
{
    let len = s.unicode_len();
    let mut end = len;
    proof {
        assert(s@.take(len as int) =~= s@);
    }
    while end > 0 && is_space_char(s.get_char(end - 1))
        invariant
            end <= len,
            len == s@.len(),
            trim_end_spec(s@) == trim_end_spec(s@.take(end as int)),
        decreases end,
    {
        proof {
            assert(s@.take(end as int).drop_last() =~= s@.take(end - 1));
        }
        end -= 1;
    }
    let r = s.substring_char(0, end).to_owned();
    proof {
        assert(r@ =~= s@.take(end as int));
    }
    r
}

/// Removes every newline character; providers are known to hand values back
/// with one embedded.
pub fn strip_newlines(s: &str) -> (r: String)
    ensures
        r@ == strip_nl_spec(s@),
{
    let len = s.unicode_len();
    let mut r = String::new();
    let mut i: usize = 0;
    while i < len
        invariant
            i <= len,
            len == s@.len(),
            r@ == strip_nl_spec(s@.take(i as int)),
        decreases len - i,
    {
        let c = s.get_char(i);
        if c != '\n' {
            let piece = s.substring_char(i, i + 1);
            r.append(piece);
        }
        proof {
            assert(s@.take(i + 1).drop_last() =~= s@.take(i as int));
            assert(s@.take(i + 1).last() == s@[i as int]);
            if c != '\n' {
                assert(s@.subrange(i as int, i + 1) =~= seq![s@[i as int]]);
                assert(r@ =~= strip_nl_spec(s@.take(i + 1)));
            }
        }
        i += 1;
    }
    proof {
        assert(s@.take(len as int) =~= s@);
    }
    r
}

} // verus!
