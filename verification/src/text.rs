//! Verified text primitives: whitespace trimming, prefix handling, splitting,
//! and decimal parsing, each proved against a small mathematical definition
//! over sequences of characters.

use vstd::prelude::*;

verus! {

/// Whitespace, as the Unicode White_Space property lists it: the separators
/// recognised in the bot's text formats, trimmed from form fields and split
/// on between command arguments.
pub open spec fn is_space(c: char) -> bool {
    c == '\u{9}' || c == '\u{a}' || c == '\u{b}' || c == '\u{c}' || c == '\u{d}' || c == ' '
        || c == '\u{85}' || c == '\u{a0}' || c == '\u{1680}' || c == '\u{2000}' || c == '\u{2001}'
        || c == '\u{2002}' || c == '\u{2003}' || c == '\u{2004}' || c == '\u{2005}'
        || c == '\u{2006}' || c == '\u{2007}' || c == '\u{2008}' || c == '\u{2009}'
        || c == '\u{200a}' || c == '\u{2028}' || c == '\u{2029}' || c == '\u{202f}'
        || c == '\u{205f}' || c == '\u{3000}'
}

/// Executable test for [`is_space`].
pub fn char_is_space(c: char) -> (r: bool)
    ensures
        r == is_space(c),
{
    match c {
        '\u{9}' | '\u{a}' | '\u{b}' | '\u{c}' | '\u{d}' | ' ' | '\u{85}' | '\u{a0}' | '\u{1680}'
            | '\u{2000}' | '\u{2001}' | '\u{2002}' | '\u{2003}' | '\u{2004}' | '\u{2005}'
            | '\u{2006}' | '\u{2007}' | '\u{2008}' | '\u{2009}' | '\u{200a}' | '\u{2028}'
            | '\u{2029}' | '\u{202f}' | '\u{205f}' | '\u{3000}' => true,
        _ => false,
    }
}

/// The sequence with its leading whitespace removed.
pub open spec fn trim_start_spec(s: Seq<char>) -> Seq<char>
    decreases s.len(),
{
    if s.len() > 0 && is_space(s[0]) {
        trim_start_spec(s.drop_first())
    } else {
        s
    }
}

/// The sequence with its trailing whitespace removed.
pub open spec fn trim_end_spec(s: Seq<char>) -> Seq<char>
    decreases s.len(),
{
    if s.len() > 0 && is_space(s.last()) {
        trim_end_spec(s.drop_last())
    } else {
        s
    }
}

/// The sequence with whitespace removed from both ends.
pub open spec fn trim_spec(s: Seq<char>) -> Seq<char> {
    trim_end_spec(trim_start_spec(s))
}

/// Copies `s` without its leading and trailing whitespace.
pub fn trim(s: &str) -> (r: String)
    ensures
        r@ == trim_spec(s@),
{
    let n = s.unicode_len();
    proof {
        assert(s@.subrange(0, n as int) =~= s@);
    }
    let mut i: usize = 0;
    while i < n && char_is_space(s.get_char(i))
        invariant
            n == s@.len(),
            i <= n,
            trim_start_spec(s@) == trim_start_spec(s@.subrange(i as int, n as int)),
        decreases n - i,
    {
        proof {
            assert(s@.subrange(i as int, n as int).drop_first() =~= s@.subrange(
                i as int + 1,
                n as int,
            ));
        }
        i += 1;
    }
    proof {
        if i == n {
            assert(s@.subrange(i as int, n as int) =~= Seq::<char>::empty());
        }
        assert(trim_start_spec(s@) == s@.subrange(i as int, n as int));
    }
    let mut j: usize = n;
    while j > i && char_is_space(s.get_char(j - 1))
        invariant
            n == s@.len(),
            i <= j <= n,
            trim_end_spec(s@.subrange(i as int, n as int)) == trim_end_spec(
                s@.subrange(i as int, j as int),
            ),
        decreases j,
    {
        proof {
            assert(s@.subrange(i as int, j as int).last() == s@[j - 1]);
            assert(s@.subrange(i as int, j as int).drop_last() =~= s@.subrange(
                i as int,
                j as int - 1,
            ));
        }
        j -= 1;
    }
    proof {
        if j == i {
            assert(s@.subrange(i as int, j as int) =~= Seq::<char>::empty());
        }
        assert(trim_spec(s@) == s@.subrange(i as int, j as int));
    }
    s.substring_char(i, j).to_owned()
}

/// `p` is an initial segment of `s`.
pub open spec fn has_prefix(s: Seq<char>, p: Seq<char>) -> bool {
    p.len() <= s.len() && s.subrange(0, p.len() as int) == p
}

/// Whether `s` starts with `p`, compared character by character.
pub fn starts_with_str(s: &str, p: &str) -> (r: bool)
    ensures
        r == has_prefix(s@, p@),
{
    let sn = s.unicode_len();
    let pn = p.unicode_len();
    if pn > sn {
        return false;
    }
    let mut k: usize = 0;
    while k < pn
        invariant
            sn == s@.len(),
            pn == p@.len(),
            pn <= sn,
            k <= pn,
            forall|t: int| 0 <= t < k ==> s@[t] == p@[t],
        decreases pn - k,
    {
        if s.get_char(k) != p.get_char(k) {
            proof {
                assert(s@.subrange(0, pn as int)[k as int] != p@[k as int]);
            }
            return false;
        }
        k += 1;
    }
    proof {
        assert(s@.subrange(0, pn as int) =~= p@);
    }
    true
}

/// `s` with `p` removed from its front when `p` is a prefix, else `s` itself.
pub open spec fn strip_prefix_spec(s: Seq<char>, p: Seq<char>) -> Seq<char> {
    if has_prefix(s, p) {
        s.skip(p.len() as int)
    } else {
        s
    }
}

/// Removes one occurrence of the prefix `p` from `s`, if present.
pub fn strip_prefix<'a>(s: &'a str, p: &str) -> (r: &'a str)
    ensures
        r@ == strip_prefix_spec(s@, p@),
{
    if starts_with_str(s, p) {
        let sn = s.unicode_len();
        let pn = p.unicode_len();
        let rest = s.substring_char(pn, sn);
        proof {
            assert(s@.subrange(pn as int, sn as int) =~= s@.skip(p@.len() as int));
        }
        rest
    } else {
        s
    }
}

/// How many times `c` occurs in `s`.
pub open spec fn count_char(s: Seq<char>, c: char) -> nat
    decreases s.len(),
{
    if s.len() == 0 {
        0
    } else {
        count_char(s.drop_last(), c) + if s.last() == c {
            1nat
        } else {
            0nat
        }
    }
}

/// The index of the first occurrence of `c` in `s` (`s.len()` when absent).
pub open spec fn first_index_of(s: Seq<char>, c: char) -> int
    decreases s.len(),
{
    if s.len() == 0 {
        0
    } else if s[0] == c {
        0
    } else {
        1 + first_index_of(s.drop_first(), c)
    }
}

/// Counting distributes over the three parts around any position.
proof fn lemma_count_char_split(s: Seq<char>, c: char, k: int)
    requires
        0 <= k < s.len(),
    ensures
        count_char(s, c) == count_char(s.subrange(0, k), c) + (if s[k] == c {
            1nat
        } else {
            0nat
        }) + count_char(s.subrange(k + 1, s.len() as int), c),
    decreases s.len(),
{
    if k == s.len() - 1 {
        assert(s.drop_last() =~= s.subrange(0, k));
        assert(s.subrange(k + 1, s.len() as int) =~= Seq::<char>::empty());
    } else {
        lemma_count_char_split(s.drop_last(), c, k);
        assert(s.drop_last().subrange(0, k) =~= s.subrange(0, k));
        assert(s.drop_last().subrange(k + 1, s.len() - 1) =~= s.subrange(k + 1, s.len() - 1));
        assert(s.subrange(k + 1, s.len() as int).drop_last() =~= s.subrange(k + 1, s.len() - 1));
        assert(s.subrange(k + 1, s.len() as int).last() == s.last());
    }
}

/// A witness occurrence fixes `first_index_of`.
proof fn lemma_first_index_of(s: Seq<char>, c: char, k: int)
    requires
        0 <= k < s.len(),
        s[k] == c,
        forall|t: int| 0 <= t < k ==> s[t] != c,
    ensures
        first_index_of(s, c) == k,
    decreases k,
{
    if k > 0 {
        lemma_first_index_of(s.drop_first(), c, k - 1);
    }
}

/// Splits `s` at its comma when `s` holds exactly one, and refuses it
/// otherwise: the two returned segments hold no comma themselves.
pub fn split_at_single_comma(s: &str) -> (r: Option<(String, String)>)
    ensures
        match r {
            Some(p) => {
                &&& count_char(s@, ',') == 1
                &&& p.0@ == s@.subrange(0, first_index_of(s@, ','))
                &&& p.1@ == s@.subrange(first_index_of(s@, ',') + 1, s@.len() as int)
            },
            None => count_char(s@, ',') != 1,
        },
{
    let n = s.unicode_len();
    let mut i: usize = 0;
    let mut first: Option<usize> = None;
    while i < n
        invariant
            n == s@.len(),
            i <= n,
            match first {
                Some(f) => {
                    &&& f < i
                    &&& s@[f as int] == ','
                    &&& count_char(s@.subrange(0, f as int), ',') == 0
                    &&& count_char(s@.subrange(f as int + 1, i as int), ',') == 0
                    &&& forall|t: int| 0 <= t < f ==> s@[t] != ','
                },
                None => {
                    &&& count_char(s@.subrange(0, i as int), ',') == 0
                    &&& forall|t: int| 0 <= t < i ==> s@[t] != ','
                },
            },
        decreases n - i,
    {
        let c = s.get_char(i);
        proof {
            assert(s@.subrange(0, i as int + 1).drop_last() =~= s@.subrange(0, i as int));
            assert(s@.subrange(0, i as int + 1).last() == s@[i as int]);
            if let Some(f) = first {
                assert(s@.subrange(f as int + 1, i as int + 1).drop_last() =~= s@.subrange(
                    f as int + 1,
                    i as int,
                ));
                assert(s@.subrange(f as int + 1, i as int + 1).last() == s@[i as int]);
            }
        }
        if c == ',' {
            match first {
                None => {
                    first = Some(i);
                    proof {
                        assert(s@.subrange(i as int + 1, i as int + 1) =~= Seq::<char>::empty());
                    }
                },
                Some(f) => {
                    // a second comma: the count is at least two
                    proof {
                        lemma_count_char_split(s@, ',', i as int);
                        lemma_count_char_split(s@.subrange(0, i as int), ',', f as int);
                        assert(s@.subrange(0, i as int)[f as int] == s@[f as int]);
                    }
                    return None;
                },
            }
        }
        i += 1;
    }
    match first {
        None => {
            proof {
                assert(s@.subrange(0, n as int) =~= s@);
            }
            None
        },
        Some(f) => {
            proof {
                lemma_count_char_split(s@, ',', f as int);
                lemma_first_index_of(s@, ',', f as int);
            }
            let a = s.substring_char(0, f).to_owned();
            let b = s.substring_char(f + 1, n).to_owned();
            Some((a, b))
        },
    }
}

/// A decimal digit.
pub open spec fn is_digit(c: char) -> bool {
    c == '0' || c == '1' || c == '2' || c == '3' || c == '4' || c == '5' || c == '6' || c == '7'
        || c == '8' || c == '9'
}

/// The value of a decimal digit.
pub open spec fn digit_val(c: char) -> nat {
    if c == '1' {
        1
    } else if c == '2' {
        2
    } else if c == '3' {
        3
    } else if c == '4' {
        4
    } else if c == '5' {
        5
    } else if c == '6' {
        6
    } else if c == '7' {
        7
    } else if c == '8' {
        8
    } else if c == '9' {
        9
    } else {
        0
    }
}

/// Every character of `s` is a decimal digit.
pub open spec fn all_digits(s: Seq<char>) -> bool {
    forall|k: int| 0 <= k < s.len() ==> is_digit(s[k])
}

/// The number that the digit sequence `s` denotes, most significant first.
pub open spec fn digits_val(s: Seq<char>) -> nat
    decreases s.len(),
{
    if s.len() == 0 {
        0
    } else {
        digits_val(s.drop_last()) * 10 + digit_val(s.last())
    }
}

/// The digit part of a decimal token: an optional leading `+` sign is
/// allowed, as in the standard library's unsigned parsing.
pub open spec fn token_digits(s: Seq<char>) -> Seq<char> {
    if s.len() > 0 && s[0] == '+' {
        s.drop_first()
    } else {
        s
    }
}

/// `s` denotes an unsigned 64-bit integer: an optional `+`, then at least
/// one digit, with a value that fits in a `u64`.
pub open spec fn is_u64_token(s: Seq<char>) -> bool {
    &&& token_digits(s).len() > 0
    &&& all_digits(token_digits(s))
    &&& digits_val(token_digits(s)) <= u64::MAX
}

/// The value a valid token denotes.
pub open spec fn u64_token_val(s: Seq<char>) -> nat {
    digits_val(token_digits(s))
}

/// A digit sequence never denotes less than any of its prefixes.
proof fn lemma_digits_val_prefix_le(s: Seq<char>, k: int)
    requires
        0 <= k <= s.len(),
    ensures
        digits_val(s.subrange(0, k)) <= digits_val(s),
    decreases s.len() - k,
{
    if k == s.len() {
        assert(s.subrange(0, k) =~= s);
    } else {
        lemma_digits_val_prefix_le(s, k + 1);
        assert(s.subrange(0, k + 1).drop_last() =~= s.subrange(0, k));
        assert(digits_val(s.subrange(0, k + 1)) == digits_val(s.subrange(0, k)) * 10 + digit_val(
            s.subrange(0, k + 1).last(),
        ));
    }
}

/// Executable test for [`is_digit`], returning the digit's value.
pub fn char_digit(c: char) -> (r: Option<u64>)
    ensures
        r is Some <==> is_digit(c),
        r is Some ==> r.unwrap() as nat == digit_val(c),
{
    match c {
        '0' => Some(0),
        '1' => Some(1),
        '2' => Some(2),
        '3' => Some(3),
        '4' => Some(4),
        '5' => Some(5),
        '6' => Some(6),
        '7' => Some(7),
        '8' => Some(8),
        '9' => Some(9),
        _ => None,
    }
}

/// Parses `s` as an unsigned 64-bit decimal integer: an optional leading
/// `+`, then one or more digits; anything else, or a value over `u64::MAX`,
/// is refused.
pub fn parse_u64(s: &str) -> (r: Option<u64>)
    ensures
        r is Some <==> is_u64_token(s@),
        r is Some ==> r.unwrap() as nat == u64_token_val(s@),
{
    let n = s.unicode_len();
    let start: usize = if n > 0 && s.get_char(0) == '+' {
        1
    } else {
        0
    };
    proof {
        if start == 1 {
            assert(token_digits(s@) =~= s@.subrange(1, n as int));
        } else {
            assert(token_digits(s@) =~= s@.subrange(0, n as int));
        }
    }
    if start == n {
        return None;
    }
    let ghost d = token_digits(s@);
    let mut acc: u64 = 0;
    let mut i: usize = start;
    while i < n
        invariant
            n == s@.len(),
            start <= i <= n,
            start < n,
            d == token_digits(s@),
            d =~= s@.subrange(start as int, n as int),
            acc as nat == digits_val(d.subrange(0, i - start)),
            all_digits(d.subrange(0, i - start)),
        decreases n - i,
    {
        let c = s.get_char(i);
        proof {
            assert(d.subrange(0, i - start + 1).drop_last() =~= d.subrange(0, i - start));
            assert(d.subrange(0, i - start + 1).last() == s@[i as int]);
        }
        match char_digit(c) {
            None => {
                proof {
                    assert(d[i - start] == s@[i as int]);
                    assert(!all_digits(d));
                }
                return None;
            },
            Some(v) => {
                let shifted = match acc.checked_mul(10) {
                    Some(m) => m,
                    None => {
                        proof {
                            lemma_digits_val_prefix_le(d, i - start + 1);
                        }
                        return None;
                    },
                };
                acc = match shifted.checked_add(v) {
                    Some(a) => a,
                    None => {
                        proof {
                            lemma_digits_val_prefix_le(d, i - start + 1);
                        }
                        return None;
                    },
                };
            },
        }
        i += 1;
    }
    proof {
        assert(d.subrange(0, n - start) =~= d);
    }
    Some(acc)
}

/// The maximal run of non-whitespace characters at the front of `s`.
pub open spec fn take_token(s: Seq<char>) -> Seq<char>
    decreases s.len(),
{
    if s.len() > 0 && !is_space(s[0]) {
        seq![s[0]] + take_token(s.drop_first())
    } else {
        Seq::empty()
    }
}

/// A token is never longer than the text it starts.
proof fn lemma_take_token_len(s: Seq<char>)
    ensures
        take_token(s).len() <= s.len(),
    decreases s.len(),
{
    if s.len() > 0 && !is_space(s[0]) {
        lemma_take_token_len(s.drop_first());
    }
}

#[via_fn]
proof fn split_ws_decreases(s: Seq<char>) {
    if s.len() > 0 && !is_space(s[0]) {
        lemma_take_token_len(s);
    }
}

/// The whitespace-separated tokens of `s`, in order.
pub open spec fn split_ws(s: Seq<char>) -> Seq<Seq<char>>
    decreases s.len(),
    via split_ws_decreases
{
    if s.len() == 0 {
        Seq::empty()
    } else if is_space(s[0]) {
        split_ws(s.drop_first())
    } else {
        seq![take_token(s)] + split_ws(s.skip(take_token(s).len() as int))
    }
}

/// A run of non-whitespace bounded by the end or by whitespace is the token.
proof fn lemma_take_token_run(t: Seq<char>, m: int)
    requires
        0 <= m <= t.len(),
        forall|k: int| 0 <= k < m ==> !is_space(t[k]),
        m == t.len() || is_space(t[m]),
    ensures
        take_token(t) == t.subrange(0, m),
    decreases m,
{
    if m == 0 {
        assert(t.subrange(0, 0) =~= Seq::<char>::empty());
    } else {
        lemma_take_token_run(t.drop_first(), m - 1);
        assert(seq![t[0]] + t.drop_first().subrange(0, m - 1) =~= t.subrange(0, m));
    }
}

/// Collects the whitespace-separated tokens of `s`.
pub fn split_whitespace(s: &str) -> (r: Vec<String>)
    ensures
        r@.map_values(|t: String| t@) == split_ws(s@),
{
    let n = s.unicode_len();
    let mut out: Vec<String> = Vec::new();
    let mut i: usize = 0;
    proof {
        assert(s@.subrange(0, n as int) =~= s@);
        assert(out@.map_values(|t: String| t@) =~= Seq::<Seq<char>>::empty());
    }
    while i < n
        invariant
            n == s@.len(),
            i <= n,
            split_ws(s@) == out@.map_values(|t: String| t@) + split_ws(
                s@.subrange(i as int, n as int),
            ),
        decreases n - i,
    {
        if char_is_space(s.get_char(i)) {
            proof {
                assert(s@.subrange(i as int, n as int).drop_first() =~= s@.subrange(
                    i as int + 1,
                    n as int,
                ));
            }
            i += 1;
        } else {
            let start = i;
            i += 1;
            while i < n && !char_is_space(s.get_char(i))
                invariant
                    n == s@.len(),
                    start < i <= n,
                    forall|k: int| start <= k < i ==> !is_space(s@[k]),
                decreases n - i,
            {
                i += 1;
            }
            let ghost t = s@.subrange(start as int, n as int);
            proof {
                assert(forall|k: int| 0 <= k < i - start ==> t[k] == s@[start + k]);
                lemma_take_token_run(t, i - start);
                assert(t.subrange(0, i - start) =~= s@.subrange(start as int, i as int));
                assert(t.skip(i - start) =~= s@.subrange(i as int, n as int));
            }
            let token = s.substring_char(start, i).to_owned();
            proof {
                let f = |x: String| x@;
                assert((out@ + seq![token]).map_values(f) =~= out@.map_values(f) + seq![token@]);
                assert(out@.push(token) =~= out@ + seq![token]);
            }
            out.push(token);
        }
    }
    proof {
        assert(s@.subrange(n as int, n as int) =~= Seq::<char>::empty());
        assert(out@.map_values(|t: String| t@) + Seq::<Seq<char>>::empty() =~= out@.map_values(
            |t: String| t@,
        ));
    }
    out
}

} // verus!
