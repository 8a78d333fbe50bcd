//! Verified text utilities for the line-oriented, whitespace-tokenized
//! consensus document format: splitting on a separator character,
//! whitespace tokenization, bounded decimal parsing, and string equality.

use vstd::prelude::*;

verus! {

/// Token separators inside a keyword line. A carriage return is treated as a
/// separator so that documents with `\r\n` line endings tokenize the same way
/// as documents with bare `\n` endings.
pub open spec fn is_ws(c: char) -> bool {
    c == ' ' || c == '\t' || c == '\r'
}

fn is_ws_char(c: char) -> (r: bool)
    ensures
        r == is_ws(c),
{
    c == ' ' || c == '\t' || c == '\r'
}

pub open spec fn is_digit(c: char) -> bool {
    48 <= c as u32 && c as u32 <= 57
}

pub open spec fn digit_val(c: char) -> int {
    c as u32 - 48
}

pub open spec fn all_digits(s: Seq<char>) -> bool {
    forall|i: int| 0 <= i < s.len() ==> is_digit(#[trigger] s[i])
}

/// The value of a decimal digit string, most significant digit first.
pub open spec fn dec_val(s: Seq<char>) -> int
    decreases s.len(),
{
    if s.len() == 0 {
        0
    } else {
        dec_val(s.drop_last()) * 10 + digit_val(s.last())
    }
}

pub proof fn lemma_dec_val_nonneg(s: Seq<char>)
    requires
        all_digits(s),
    ensures
        dec_val(s) >= 0,
    decreases s.len(),
{
    if s.len() > 0 {
        lemma_dec_val_nonneg(s.drop_last());
    }
}

/// A decimal token stands for a number up to `max` exactly when it is
/// nonempty, consists of digits alone, and its value is at most `max`.
/// Leading zeros are accepted.
pub open spec fn spec_dec_token(s: Seq<char>, max: u16) -> Option<u16> {
    if s.len() > 0 && all_digits(s) && dec_val(s) <= max {
        Some(dec_val(s) as u16)
    } else {
        None
    }
}

/// Parses a decimal token with value at most `max`, rejecting anything else.
pub fn parse_dec_max(t: &str, max: u16) -> (r: Option<u16>)
    ensures
        r == spec_dec_token(t@, max),
{
    let n = t.unicode_len();
    if n == 0 {
        return None;
    }
    let mut acc: u32 = 0;
    let mut i: usize = 0;
    while i < n
        invariant
            n == t@.len(),
            0 <= i <= n,
            all_digits(t@.take(i as int)),
            dec_val(t@.take(i as int)) <= max as int ==> acc == dec_val(t@.take(i as int)),
            dec_val(t@.take(i as int)) > max as int ==> acc > max as u32,
            acc <= 10 * (max as u32) + 9,
        decreases n - i,
    {
        let c = t.get_char(i);
        let u = c as u32;
        if u < 48 || u > 57 {
            proof {
                assert(!is_digit(t@[i as int]));
            }
            return None;
        }
        proof {
            assert(t@.take(i + 1).drop_last() =~= t@.take(i as int));
            assert(t@.take(i + 1).last() == t@[i as int]);
            lemma_dec_val_nonneg(t@.take(i as int));
        }
        if acc <= max as u32 {
            acc = acc * 10 + (u - 48);
        }
        proof {
            assert(all_digits(t@.take(i + 1)));
        }
        i = i + 1;
    }
    proof {
        assert(t@.take(n as int) =~= t@);
        lemma_dec_val_nonneg(t@);
    }
    if acc <= max as u32 {
        Some(acc as u16)
    } else {
        None
    }
}

/// Splits `s` at every occurrence of `sep`; separators are consumed and empty
/// pieces are kept, so the result always has one piece more than there are
/// separators.
pub open spec fn split_rec(
    s: Seq<char>,
    sep: char,
    i: int,
    cur: Seq<char>,
    acc: Seq<Seq<char>>,
) -> Seq<Seq<char>>
    decreases s.len() - i,
{
    if i < 0 || i >= s.len() {
        acc.push(cur)
    } else if s[i] == sep {
        split_rec(s, sep, i + 1, Seq::empty(), acc.push(cur))
    } else {
        split_rec(s, sep, i + 1, cur.push(s[i]), acc)
    }
}

pub open spec fn split_on(s: Seq<char>, sep: char) -> Seq<Seq<char>> {
    split_rec(s, sep, 0, Seq::empty(), Seq::empty())
}

pub fn split_on_char<'a>(s: &'a str, sep: char) -> (r: Vec<&'a str>)
    ensures
        r.deep_view() == split_on(s@, sep),
{
    let n = s.unicode_len();
    let mut acc: Vec<&'a str> = Vec::new();
    let mut start: usize = 0;
    let mut i: usize = 0;
    proof {
        assert(s@.subrange(0, 0) =~= Seq::<char>::empty());
        assert(acc.deep_view() =~= Seq::<Seq<char>>::empty());
    }
    while i < n
        invariant
            n == s@.len(),
            0 <= start <= i <= n,
            split_on(s@, sep) == split_rec(
                s@,
                sep,
                i as int,
                s@.subrange(start as int, i as int),
                acc.deep_view(),
            ),
        decreases n - i,
    {
        let c = s.get_char(i);
        if c == sep {
            let piece = s.substring_char(start, i);
            let ghost old_dv = acc.deep_view();
            acc.push(piece);
            proof {
                assert(acc.deep_view() =~= old_dv.push(piece@));
                assert(s@.subrange(i + 1, i + 1) =~= Seq::<char>::empty());
            }
            start = i + 1;
        } else {
            proof {
                assert(s@.subrange(start as int, i + 1) =~= s@.subrange(
                    start as int,
                    i as int,
                ).push(s@[i as int]));
            }
        }
        i = i + 1;
    }
    let piece = s.substring_char(start, n);
    let ghost old_dv = acc.deep_view();
    acc.push(piece);
    proof {
        assert(acc.deep_view() =~= old_dv.push(piece@));
    }
    acc
}

/// Whitespace tokenization: maximal runs of non-separator characters, with
/// separator runs collapsed and no empty tokens.
pub open spec fn tok_rec(s: Seq<char>, i: int, cur: Seq<char>, acc: Seq<Seq<char>>) -> Seq<
    Seq<char>,
>
    decreases s.len() - i,
{
    if i < 0 || i >= s.len() {
        if cur.len() > 0 {
            acc.push(cur)
        } else {
            acc
        }
    } else if is_ws(s[i]) {
        if cur.len() > 0 {
            tok_rec(s, i + 1, Seq::empty(), acc.push(cur))
        } else {
            tok_rec(s, i + 1, Seq::empty(), acc)
        }
    } else {
        tok_rec(s, i + 1, cur.push(s[i]), acc)
    }
}

pub open spec fn tokens_of(s: Seq<char>) -> Seq<Seq<char>> {
    tok_rec(s, 0, Seq::empty(), Seq::empty())
}

pub fn tokenize<'a>(s: &'a str) -> (r: Vec<&'a str>)
    ensures
        r.deep_view() == tokens_of(s@),
{
    let n = s.unicode_len();
    let mut acc: Vec<&'a str> = Vec::new();
    let mut start: usize = 0;
    let mut i: usize = 0;
    proof {
        assert(s@.subrange(0, 0) =~= Seq::<char>::empty());
        assert(acc.deep_view() =~= Seq::<Seq<char>>::empty());
    }
    while i < n
        invariant
            n == s@.len(),
            0 <= start <= i <= n,
            tokens_of(s@) == tok_rec(
                s@,
                i as int,
                s@.subrange(start as int, i as int),
                acc.deep_view(),
            ),
        decreases n - i,
    {
        let c = s.get_char(i);
        if is_ws_char(c) {
            if i > start {
                let piece = s.substring_char(start, i);
                let ghost old_dv = acc.deep_view();
                acc.push(piece);
                proof {
                    assert(acc.deep_view() =~= old_dv.push(piece@));
                }
            }
            proof {
                assert(s@.subrange(i + 1, i + 1) =~= Seq::<char>::empty());
            }
            start = i + 1;
        } else {
            proof {
                assert(s@.subrange(start as int, i + 1) =~= s@.subrange(
                    start as int,
                    i as int,
                ).push(s@[i as int]));
            }
        }
        i = i + 1;
    }
    if n > start {
        let piece = s.substring_char(start, n);
        let ghost old_dv = acc.deep_view();
        acc.push(piece);
        proof {
            assert(acc.deep_view() =~= old_dv.push(piece@));
        }
    }
    acc
}

/// Character-for-character string equality.
pub fn str_eq(a: &str, b: &str) -> (r: bool)
    ensures
        r == (a@ == b@),
{
    let na = a.unicode_len();
    let nb = b.unicode_len();
    if na != nb {
        return false;
    }
    let mut i: usize = 0;
    while i < na
        invariant
            na == a@.len(),
            nb == b@.len(),
            na == nb,
            0 <= i <= na,
            forall|j: int| 0 <= j < i ==> a@[j] == b@[j],
        decreases na - i,
    {
        if a.get_char(i) != b.get_char(i) {
            return false;
        }
        i = i + 1;
    }
    proof {
        assert(a@ =~= b@);
    }
    true
}

} // verus!
