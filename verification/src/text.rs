//! Character-level helpers shared by the rest of the library: whitespace
//! trimming, decimal formatting and parsing of unsigned integers, and string
//! equality.

use vstd::prelude::*;

verus! {

/// `String::push` appends one character at the end of the string.
pub assume_specification[ String::push ](s: &mut String, ch: char)
    ensures
        final(s)@ == old(s)@.push(ch),
;

/// `str == str` is character-wise equality.
pub assume_specification[ <str as PartialEq>::eq ](a: &str, b: &str) -> (res: bool)
    ensures
        res == (a@ == b@),
;

/// `str::trim` removes every leading and trailing character with the Unicode
/// `White_Space` property, as its documentation says.
pub assume_specification[ str::trim ](s: &str) -> (res: &str)
    ensures
        res@ == trim_spec(s@),
;

/// The Unicode `White_Space` property (PropList.txt), which is what
/// `char::is_whitespace` and `str::trim` test.
pub open spec fn is_white_space(c: char) -> bool {
    let u = c as u32;
    ||| 0x09 <= u <= 0x0D
    ||| u == 0x20
    ||| u == 0x85
    ||| u == 0xA0
    ||| u == 0x1680
    ||| 0x2000 <= u <= 0x200A
    ||| u == 0x2028
    ||| u == 0x2029
    ||| u == 0x202F
    ||| u == 0x205F
    ||| u == 0x3000
}

/// `s` without its leading whitespace.
pub open spec fn trim_start_spec(s: Seq<char>) -> Seq<char>
    decreases s.len(),
{
    if s.len() > 0 && is_white_space(s[0]) {
        trim_start_spec(s.drop_first())
    } else {
        s
    }
}

/// `s` without its trailing whitespace.
pub open spec fn trim_end_spec(s: Seq<char>) -> Seq<char>
    decreases s.len(),
{
    if s.len() > 0 && is_white_space(s.last()) {
        trim_end_spec(s.drop_last())
    } else {
        s
    }
}

/// `s` without leading and trailing whitespace.
pub open spec fn trim_spec(s: Seq<char>) -> Seq<char> {
    trim_end_spec(trim_start_spec(s))
}

/// Character-wise equality of two string slices.
pub fn str_eq(a: &str, b: &str) -> (res: bool)
    ensures
        res == (a@ == b@),
{
    a.eq(b)
}

/// The ASCII character of the decimal digit `d` (`0 <= d < 10`).
pub open spec fn digit_char(d: nat) -> char {
    if d == 0 {
        '0'
    } else if d == 1 {
        '1'
    } else if d == 2 {
        '2'
    } else if d == 3 {
        '3'
    } else if d == 4 {
        '4'
    } else if d == 5 {
        '5'
    } else if d == 6 {
        '6'
    } else if d == 7 {
        '7'
    } else if d == 8 {
        '8'
    } else {
        '9'
    }
}

/// The decimal representation of `n`, without sign or leading zeros, as
/// `u64::to_string` writes it.
pub open spec fn decimal_spec(n: nat) -> Seq<char>
    decreases n,
{
    if n < 10 {
        seq![digit_char(n)]
    } else {
        decimal_spec(n / 10).push(digit_char(n % 10))
    }
}

fn digit_to_char(d: u64) -> (c: char)
    requires
        d < 10,
    ensures
        c == digit_char(d as nat),
{
    if d == 0 {
        '0'
    } else if d == 1 {
        '1'
    } else if d == 2 {
        '2'
    } else if d == 3 {
        '3'
    } else if d == 4 {
        '4'
    } else if d == 5 {
        '5'
    } else if d == 6 {
        '6'
    } else if d == 7 {
        '7'
    } else if d == 8 {
        '8'
    } else {
        '9'
    }
}

/// Appends the decimal representation of `n` to `s`.
pub fn push_decimal(s: &mut String, n: u64)
    ensures
        final(s)@ == old(s)@ + decimal_spec(n as nat),
    decreases n,
{
    if n >= 10 {
        push_decimal(s, n / 10);
    }
    let c = digit_to_char(n % 10);
    s.push(c);
    proof {
        if n >= 10 {
            assert(decimal_spec(n as nat) == decimal_spec((n / 10) as nat).push(
                digit_char((n % 10) as nat),
            ));
        }
        assert(final(s)@ =~= old(s)@ + decimal_spec(n as nat));
    }
}

/// The decimal representation of `n`.
pub fn u64_to_decimal(n: u64) -> (s: String)
    ensures
        s@ == decimal_spec(n as nat),
{
    let mut s = String::new();
    push_decimal(&mut s, n);
    assert(s@ =~= decimal_spec(n as nat));
    s
}


/// An ASCII decimal digit.
pub open spec fn is_ascii_digit(c: char) -> bool {
    48 <= c as u32 <= 57
}

/// The value of the ASCII decimal digit `c`.
pub open spec fn digit_value(c: char) -> nat {
    (c as u32 - 48) as nat
}

/// The value of a string of decimal digits, most significant first.
pub open spec fn digits_value(s: Seq<char>) -> nat
    decreases s.len(),
{
    if s.len() == 0 {
        0
    } else {
        digits_value(s.drop_last()) * 10 + digit_value(s.last())
    }
}

/// Every character of `s` is an ASCII decimal digit.
pub open spec fn all_digits(s: Seq<char>) -> bool {
    forall|i: int| 0 <= i < s.len() ==> #[trigger] is_ascii_digit(s[i])
}

/// What `str::parse::<u64>` accepts: an optional `+`, then one or more ASCII
/// digits whose value fits in a `u64`.
pub open spec fn parse_u64_spec(s: Seq<char>) -> Option<u64> {
    let t = if s.len() > 0 && s[0] == '+' {
        s.drop_first()
    } else {
        s
    };
    if t.len() > 0 && all_digits(t) && digits_value(t) <= u64::MAX {
        Some(digits_value(t) as u64)
    } else {
        None
    }
}

proof fn lemma_digits_value_step(t: Seq<char>, i: int)
    requires
        0 <= i < t.len(),
    ensures
        digits_value(t.take(i + 1)) == digits_value(t.take(i)) * 10 + digit_value(t[i]),
{
    assert(t.take(i + 1).drop_last() =~= t.take(i));
}

/// Parses an unsigned decimal integer the way `str::parse::<u64>` does.
pub fn parse_u64(s: &str) -> (res: Option<u64>)
    ensures
        res == parse_u64_spec(s@),
{
    let n = s.unicode_len();
    let mut start: usize = 0;
    if n > 0 && s.get_char(0) == '+' {
        start = 1;
    }
    let ghost t = if s@.len() > 0 && s@[0] == '+' {
        s@.drop_first()
    } else {
        s@
    };
    proof {
        if start == 1 {
            assert(t =~= s@.subrange(1, n as int));
        } else {
            assert(t =~= s@.subrange(0, n as int));
        }
    }
    if start == n {
        return None;
    }
    let mut value: u64 = 0;
    let mut i: usize = start;
    while i < n
        invariant
            n == s@.len(),
            start <= i <= n,
            start == 0 || start == 1,
            (start == 1) == (s@.len() > 0 && s@[0] == '+'),
            t == s@.subrange(start as int, n as int),
            t.len() > 0,
            all_digits(t.take(i - start)),
            value as nat == digits_value(t.take(i - start)),
        decreases n - i,
    {
        let c = s.get_char(i);
        proof {
            assert(t[i - start] == c);
        }
        if !('0' <= c && c <= '9') {
            proof {
                assert(!is_ascii_digit(t[i - start]));
            }
            return None;
        }
        let d: u64 = (c as u32 - 48) as u64;
        proof {
            lemma_digits_value_step(t, i - start);
        }
        if value > (u64::MAX - d) / 10 {
            proof {
                assert(value * 10 + d > u64::MAX) by (nonlinear_arith)
                    requires
                        value > (u64::MAX - d) / 10,
                        d < 10,
                ;
                assert(d == digit_value(t[i - start]));
                if all_digits(t) {
                    lemma_digits_value_prefix_bound(t, i - start + 1);
                    assert(digits_value(t) > u64::MAX);
                }
                assert(t == (if s@.len() > 0 && s@[0] == '+' { s@.drop_first() } else { s@ }));
                assert(!(t.len() > 0 && all_digits(t) && digits_value(t) <= u64::MAX));
                assert(parse_u64_spec(s@) is None);
            }
            return None;
        }
        value = value * 10 + d;
        i = i + 1;
        proof {
            assert forall|k: int| 0 <= k < t.take(i - start).len() implies #[trigger] is_ascii_digit(
                t.take(i - start)[k],
            ) by {
                if k < i - 1 - start {
                    assert(t.take(i - start)[k] == t.take(i - 1 - start)[k]);
                }
            }
        }
    }
    assert(t.take(n - start) =~= t);
    Some(value)
}

proof fn lemma_decimal_digits(n: nat)
    ensures
        all_digits(decimal_spec(n)),
        decimal_spec(n).len() > 0,
        digits_value(decimal_spec(n)) == n,
    decreases n,
{
    if n < 10 {
        let s = decimal_spec(n);
        assert(s.drop_last() =~= Seq::<char>::empty());
        assert(digits_value(s.drop_last()) == 0);
        assert(s.last() == digit_char(n));
        assert(digit_value(digit_char(n)) == n);
    } else {
        lemma_decimal_digits(n / 10);
        let s = decimal_spec(n);
        let p = decimal_spec(n / 10);
        assert(s.drop_last() =~= p);
        assert(s.last() == digit_char(n % 10));
        assert(digit_value(digit_char(n % 10)) == n % 10);
        assert(digits_value(s) == digits_value(p) * 10 + digit_value(s.last()));
        assert forall|i: int| 0 <= i < s.len() implies #[trigger] is_ascii_digit(s[i]) by {
            if i < p.len() {
                assert(s[i] == p[i]);
            }
        }
    }
}

/// Reading back a formatted number gives the number.
pub proof fn lemma_decimal_parse_round_trip(n: u64)
    ensures
        parse_u64_spec(decimal_spec(n as nat)) == Some(n),
{
    lemma_decimal_digits(n as nat);
    let s = decimal_spec(n as nat);
    assert(is_ascii_digit(s[0]));
}

proof fn lemma_digits_value_prefix_bound(t: Seq<char>, k: int)
    requires
        0 <= k <= t.len(),
        all_digits(t),
    ensures
        digits_value(t.take(k)) <= digits_value(t),
    decreases t.len() - k,
{
    if k < t.len() {
        lemma_digits_value_prefix_bound(t, k + 1);
        lemma_digits_value_step(t, k);
        assert(is_ascii_digit(t[k]));
    } else {
        assert(t.take(k) =~= t);
    }
}


/// `template` with every `{}` replaced by `value`, scanning left to right as
/// `str::replace` does.
pub open spec fn fill_placeholder_spec(template: Seq<char>, value: Seq<char>) -> Seq<char>
    decreases template.len(),
{
    if template.len() == 0 {
        Seq::empty()
    } else if template.len() >= 2 && template[0] == '{' && template[1] == '}' {
        value + fill_placeholder_spec(template.skip(2), value)
    } else {
        seq![template[0]] + fill_placeholder_spec(template.skip(1), value)
    }
}

/// Replaces every `{}` in a message template by `value`.
pub fn fill_placeholder(template: &str, value: &str) -> (s: String)
    ensures
        s@ == fill_placeholder_spec(template@, value@),
{
    let ghost t = template@;
    let ghost v = value@;
    let n = template.unicode_len();
    let mut out = String::new();
    let mut i: usize = 0;
    proof {
        assert(t.skip(0) =~= t);
        assert(out@ + fill_placeholder_spec(t, v) =~= fill_placeholder_spec(t, v));
    }
    while i < n
        invariant
            n == t.len(),
            t == template@,
            v == value@,
            i <= n,
            out@ + fill_placeholder_spec(t.skip(i as int), v) == fill_placeholder_spec(t, v),
        decreases n - i,
    {
        let c = template.get_char(i);
        let ghost rest = t.skip(i as int);
        if c == '{' && i + 1 < n && template.get_char(i + 1) == '}' {
            proof {
                assert(rest[0] == '{' && rest[1] == '}');
                assert(rest.skip(2) =~= t.skip(i + 2));
                assert(out@ + (v + fill_placeholder_spec(rest.skip(2), v)) =~= (out@ + v)
                    + fill_placeholder_spec(t.skip(i + 2), v));
            }
            out.append(value);
            i = i + 2;
        } else {
            proof {
                assert(rest[0] == c);
                assert(rest.skip(1) =~= t.skip(i + 1));
                assert(!(rest.len() >= 2 && rest[0] == '{' && rest[1] == '}'));
                assert(out@ + (seq![c] + fill_placeholder_spec(rest.skip(1), v)) =~= out@.push(c)
                    + fill_placeholder_spec(t.skip(i + 1), v));
            }
            out.push(c);
            i = i + 1;
        }
    }
    proof {
        assert(t.skip(n as int) =~= Seq::<char>::empty());
        assert(out@ + Seq::<char>::empty() =~= out@);
    }
    out
}


/// What `str::to_lowercase` makes of a text. It maps each character by the
/// Unicode `Lowercase_Mapping` of the standard library's Unicode version
/// (with the final-sigma rule), which takes tables to state: the library
/// only needs that the result depends on the text alone.
pub uninterp spec fn lowercase(s: Seq<char>) -> Seq<char>;

/// `str::to_lowercase` returns the lowercase equivalent of the text, a
/// function of the text alone; an empty text gives an empty one, as its
/// source (a loop over the characters into a new string) shows.
pub assume_specification[ str::to_lowercase ](s: &str) -> (res: String)
    ensures
        res@ == lowercase(s@),
        s@.len() == 0 ==> res@.len() == 0,
;

/// `needle` occurs in `hay` starting at position `i`.
pub open spec fn occurs_at(hay: Seq<char>, needle: Seq<char>, i: int) -> bool {
    &&& 0 <= i
    &&& i + needle.len() <= hay.len()
    &&& hay.subrange(i, i + needle.len()) == needle
}

/// `needle` occurs somewhere in `hay` (the empty text occurs everywhere).
pub open spec fn contains_text(hay: Seq<char>, needle: Seq<char>) -> bool {
    exists|i: int| occurs_at(hay, needle, i)
}

fn matches_at(hay: &str, needle: &str, i: usize) -> (b: bool)
    requires
        i + needle@.len() <= hay@.len(),
    ensures
        b == occurs_at(hay@, needle@, i as int),
{
    let hlen = hay.unicode_len();
    let m = needle.unicode_len();
    let mut j: usize = 0;
    while j < m
        invariant
            hlen == hay@.len(),
            m == needle@.len(),
            i + m <= hay@.len(),
            j <= m,
            forall|k: int| 0 <= k < j ==> hay@[i + k] == needle@[k],
        decreases m - j,
    {
        if hay.get_char(i + j) != needle.get_char(j) {
            assert(hay@.subrange(i as int, i + m)[j as int] != needle@[j as int]);
            return false;
        }
        j = j + 1;
    }
    assert(hay@.subrange(i as int, i + m) =~= needle@);
    true
}

/// Whether `needle` occurs in `hay`.
pub fn contains_str(hay: &str, needle: &str) -> (b: bool)
    ensures
        b == contains_text(hay@, needle@),
{
    let len = hay.unicode_len();
    let m = needle.unicode_len();
    if m > len {
        return false;
    }
    if m == 0 {
        assert(hay@.subrange(0, 0) =~= needle@);
        assert(occurs_at(hay@, needle@, 0));
        return true;
    }
    let mut i: usize = 0;
    while i <= len - m
        invariant
            len == hay@.len(),
            m == needle@.len(),
            1 <= m <= len,
            i <= len - m + 1,
            forall|k: int| 0 <= k < i ==> !occurs_at(hay@, needle@, k),
        decreases len - m + 1 - i,
    {
        if matches_at(hay, needle, i) {
            return true;
        }
        i = i + 1;
    }
    false
}

} // verus!
