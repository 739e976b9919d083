//! Unit formatting: seconds into a `d/h/m/s` breakdown and kibibyte counts
//! into `MiB`/`GiB` strings. Pure functions of their numeric input.

use vstd::prelude::*;
use vstd::string::*;
use crate::text::sep_concat;

verus! {

/// The decimal digit `d` (for `d < 10`) as a character.
pub open spec fn digit_char(d: nat) -> char {
    if d == 0 {
        '0'
    } else if d == 1 {
        '1'
    } else if d == 2 {
        '2'
    } else if d == 3 {
        '3'
    } else if d == 4 {
        '4'
    } else if d == 5 {
        '5'
    } else if d == 6 {
        '6'
    } else if d == 7 {
        '7'
    } else if d == 8 {
        '8'
    } else {
        '9'
    }
}

/// The decimal representation of `n`, without sign or padding.
pub open spec fn dec_str(n: nat) -> Seq<char>
    decreases n,
{
    if n < 10 {
        seq![digit_char(n)]
    } else {
        dec_str(n / 10).push(digit_char(n % 10))
    }
}

/// A decimal representation is never empty.
pub proof fn lemma_dec_str_len(n: nat)
    ensures
        dec_str(n).len() >= 1,
    decreases n,
{
    if n >= 10 {
        lemma_dec_str_len(n / 10);
    }
}

/// The single digit `d` as a string.
fn digit_str(d: u64) -> (r: String)
    requires
        d < 10,
    ensures
        r@ == seq![digit_char(d as nat)],
{
    let s: &str = if d == 0 {
        "0"
    } else if d == 1 {
        "1"
    } else if d == 2 {
        "2"
    } else if d == 3 {
        "3"
    } else if d == 4 {
        "4"
    } else if d == 5 {
        "5"
    } else if d == 6 {
        "6"
    } else if d == 7 {
        "7"
    } else if d == 8 {
        "8"
    } else {
        "9"
    };
    proof {
        reveal_strlit("0");
        reveal_strlit("1");
        reveal_strlit("2");
        reveal_strlit("3");
        reveal_strlit("4");
        reveal_strlit("5");
        reveal_strlit("6");
        reveal_strlit("7");
        reveal_strlit("8");
        reveal_strlit("9");
        assert(s@ =~= seq![digit_char(d as nat)]);
    }
    s.to_owned()
}

/// `n` written in decimal.
pub fn u64_to_string(n: u64) -> (r: String)
    ensures
        r@ == dec_str(n as nat),
    decreases n,
{
    if n < 10 {
        digit_str(n)
    } else {
        let mut r = u64_to_string(n / 10);
        let d = digit_str(n % 10);
        r.append(d.as_str());
        proof {
            assert(r@ =~= dec_str((n / 10) as nat).push(digit_char((n % 10) as nat)));
        }
        r
    }
}

/// The human-readable breakdown of `t` seconds.
///
/// A days/hours/minutes component is emitted only while the remaining value
/// strictly exceeds its divisor, so exact boundaries such as 3600 seconds
/// yield no hour component; the seconds remainder is always emitted, even
/// when it is zero. Emitted components are joined by single spaces.
pub open spec fn duration_str(t: nat) -> Seq<char> {
    let t1 = if t > 86400 { t % 86400 } else { t };
    let t2 = if t1 > 3600 { t1 % 3600 } else { t1 };
    let t3 = if t2 > 60 { t2 % 60 } else { t2 };
    let dpart = if t > 86400 { dec_str(t / 86400).push('d') } else { Seq::<char>::empty() };
    let hpart = if t1 > 3600 { dec_str(t1 / 3600).push('h') } else { Seq::<char>::empty() };
    let mpart = if t2 > 60 { dec_str(t2 / 60).push('m') } else { Seq::<char>::empty() };
    let spart = dec_str(t3 % 60).push('s');
    sep_concat(sep_concat(sep_concat(dpart, hpart), mpart), spart)
}

/// Formats an uptime of `seconds` seconds, e.g. `90061` as `"1d 1h 1m 1s"`.
pub fn format_duration(seconds: u64) -> (r: String)
    ensures
        r@ == duration_str(seconds as nat),
{
    proof {
        reveal_strlit("d");
        reveal_strlit("h");
        reveal_strlit("m");
        reveal_strlit("s");
    }
    let mut t = seconds;
    let mut r = String::new();
    if t > 86400 {
        let mut part = u64_to_string(t / 86400);
        part.append("d");
        proof {
            lemma_dec_str_len((t / 86400) as nat);
            assert(part@ =~= dec_str((t / 86400) as nat).push('d'));
        }
        r = crate::text::sep_append(r, part.as_str());
        t = t % 86400;
    }
    if t > 3600 {
        let mut part = u64_to_string(t / 3600);
        part.append("h");
        proof {
            lemma_dec_str_len((t / 3600) as nat);
            assert(part@ =~= dec_str((t / 3600) as nat).push('h'));
        }
        r = crate::text::sep_append(r, part.as_str());
        t = t % 3600;
    }
    if t > 60 {
        let mut part = u64_to_string(t / 60);
        part.append("m");
        proof {
            lemma_dec_str_len((t / 60) as nat);
            assert(part@ =~= dec_str((t / 60) as nat).push('m'));
        }
        r = crate::text::sep_append(r, part.as_str());
        t = t % 60;
    }
    let mut spart = u64_to_string(t % 60);
    spart.append("s");
    proof {
        lemma_dec_str_len((t % 60) as nat);
        assert(spart@ =~= dec_str((t % 60) as nat).push('s'));
    }
    r = crate::text::sep_append(r, spart.as_str());
    r
}

/// The scale a kibibyte count is reported in: `0` for a raw count,
/// `1` for mebibytes, `2` for gibibytes.
pub open spec fn byte_unit(kib: nat) -> nat {
    if kib >= 1048576 {
        2
    } else if kib >= 1024 {
        1
    } else {
        0
    }
}

/// The human-readable form of `kib` kibibytes: the larger threshold is
/// tested first, so gibibyte-scale counts are never reported in mebibytes.
pub open spec fn bytes_str(kib: nat) -> Seq<char> {
    if byte_unit(kib) == 2 {
        dec_str(kib / 1048576) + " GiB"@
    } else if byte_unit(kib) == 1 {
        dec_str(kib / 1024) + " MiB"@
    } else {
        dec_str(kib)
    }
}

/// The reported scale never shrinks as the kibibyte count grows.
pub proof fn lemma_byte_unit_monotone(a: nat, b: nat)
    requires
        a <= b,
    ensures
        byte_unit(a) <= byte_unit(b),
{
}

/// Formats `kib` kibibytes, e.g. `2048` as `"2 MiB"`.
pub fn format_bytes(kib: u64) -> (r: String)
    ensures
        r@ == bytes_str(kib as nat),
{
    if kib >= 1048576 {
        let mut r = u64_to_string(kib / 1048576);
        r.append(" GiB");
        r
    } else if kib >= 1024 {
        let mut r = u64_to_string(kib / 1024);
        r.append(" MiB");
        r
    } else {
        u64_to_string(kib)
    }
}

} // verus!
