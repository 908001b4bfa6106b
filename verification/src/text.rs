//! Character-level helpers: substring search, splitting, and decimal integers.
use vstd::prelude::*;

verus! {

/// `p` occurs in `s` as a contiguous block of characters.
pub open spec fn seq_contains(s: Seq<char>, p: Seq<char>) -> bool {
    exists|i: int| 0 <= i <= s.len() - p.len() && #[trigger] s.subrange(i, i + p.len()) == p
}

/// The views of a sequence of strings.
pub open spec fn views(v: Seq<String>) -> Seq<Seq<char>> {
    v.map_values(|x: String| x@)
}

/// The pieces of `s` between occurrences of `sep`, in order, as `str::split` yields them:
/// always at least one piece, and empty pieces are kept.
pub open spec fn split_on(s: Seq<char>, sep: char) -> Seq<Seq<char>>
    decreases s.len(),
{
    if s.len() == 0 {
        seq![Seq::<char>::empty()]
    } else {
        let rest = split_on(s.drop_last(), sep);
        if s.last() == sep {
            rest.push(Seq::<char>::empty())
        } else {
            rest.update(rest.len() - 1, rest.last().push(s.last()))
        }
    }
}

/// The decimal digit `d` (0 to 9) as a character.
pub open spec fn digit_char(d: int) -> char {
    (d + 48) as char
}

/// The value of a decimal digit character.
pub open spec fn digit_value(c: char) -> int {
    c as int - 48
}

/// `c` is one of the characters `0` to `9`.
pub open spec fn is_digit(c: char) -> bool {
    '0' <= c <= '9'
}

/// Every character of `s` is a decimal digit.
pub open spec fn all_digits(s: Seq<char>) -> bool {
    forall|i: int| 0 <= i < s.len() ==> is_digit(#[trigger] s[i])
}

/// The number that the digit string `s` denotes (0 for the empty string).
pub open spec fn digits_value(s: Seq<char>) -> nat
    decreases s.len(),
{
    if s.len() == 0 {
        0
    } else {
        digits_value(s.drop_last()) * 10 + (digit_value(s.last()) as nat)
    }
}

/// The shortest decimal representation of `n`.
pub open spec fn decimal_nat(n: nat) -> Seq<char>
    decreases n,
{
    if n < 10 {
        seq![digit_char(n as int)]
    } else {
        decimal_nat(n / 10) + seq![digit_char((n % 10) as int)]
    }
}

/// How an integer is displayed: a `-` before negative numbers, then its decimal digits.
pub open spec fn decimal_int(v: int) -> Seq<char> {
    if v < 0 {
        seq!['-'] + decimal_nat((-v) as nat)
    } else {
        decimal_nat(v as nat)
    }
}

/// What `s.parse::<i64>()` gives, as an option: an optional `+` or `-`, then one or more
/// ASCII digits, and a value in the range of `i64`.
pub open spec fn parse_i64_spec(s: Seq<char>) -> Option<i64> {
    let signed = s.len() > 0 && (s[0] == '-' || s[0] == '+');
    let digits = if signed { s.drop_first() } else { s };
    if digits.len() == 0 || !all_digits(digits) {
        None
    } else {
        let v: int = if s[0] == '-' { -(digits_value(digits) as int) } else { digits_value(digits) as int };
        if i64::MIN <= v <= i64::MAX {
            Some(v as i64)
        } else {
            None
        }
    }
}

/// Whether `pattern` occurs in `s`, as `str::contains` answers it.
pub fn contains(s: &str, pattern: &str) -> (r: bool)
    ensures
        r == seq_contains(s@, pattern@),
{
    let n = s.unicode_len();
    let m = pattern.unicode_len();
    if m > n {
        return false;
    }
    let pat = String::from_str(pattern);
    let mut i: usize = 0;
    loop
        invariant
            n == s@.len(),
            m == pattern@.len(),
            m <= n,
            i <= n - m,
            pat@ == pattern@,
            forall|j: int| 0 <= j < i ==> #[trigger] s@.subrange(j, j + m) != pattern@,
        decreases n - m - i,
    {
        let piece = String::from_str(s.substring_char(i, i + m));
        if piece.eq(&pat) {
            return true;
        }
        if i == n - m {
            return false;
        }
        i = i + 1;
    }
}

proof fn lemma_views_push(v: Seq<String>, x: String)
    ensures
        views(v.push(x)) == views(v).push(x@),
{
    assert(views(v.push(x)) =~= views(v).push(x@));
}

/// The pieces of `s` between occurrences of `sep`, as `s.split(sep)` yields them.
pub fn split(s: &str, sep: char) -> (r: Vec<String>)
    ensures
        views(r@) == split_on(s@, sep),
{
    let n = s.unicode_len();
    let mut pieces: Vec<String> = Vec::new();
    let mut start: usize = 0;
    let mut i: usize = 0;
    assert(s@.take(0) =~= Seq::<char>::empty());
    assert(views(pieces@) =~= Seq::<Seq<char>>::empty());
    assert(s@.subrange(0, 0) =~= Seq::<char>::empty());
    while i < n
        invariant
            n == s@.len(),
            start <= i <= n,
            split_on(s@.take(i as int), sep) == views(pieces@).push(s@.subrange(start as int, i as int)),
        decreases n - i,
    {
        let c = s.get_char(i);
        let ghost before = views(pieces@);
        assert(s@.take(i + 1).drop_last() =~= s@.take(i as int));
        assert(s@.take(i + 1).last() == c);
        if c == sep {
            let piece = String::from_str(s.substring_char(start, i));
            proof {
                lemma_views_push(pieces@, piece);
            }
            pieces.push(piece);
            start = i + 1;
            assert(s@.subrange(start as int, i + 1) =~= Seq::<char>::empty());
        } else {
            assert(s@.subrange(start as int, i + 1) =~= s@.subrange(start as int, i as int).push(c));
        }
        i = i + 1;
    }
    let last = String::from_str(s.substring_char(start, n));
    proof {
        lemma_views_push(pieces@, last);
        assert(s@.take(n as int) =~= s@);
    }
    pieces.push(last);
    pieces
}

/// The decimal digit `d` as a one-character string.
fn digit_text(d: u64) -> (r: &'static str)
    requires
        d < 10,
    ensures
        r@ == seq![digit_char(d as int)],
{
    let digits = "0123456789";
    proof {
        reveal_strlit("0123456789");
    }
    let r = digits.substring_char(d as usize, d as usize + 1);
    assert(r@ =~= seq![digit_char(d as int)]);
    r
}

/// Appends the decimal digits of `n` to `out`.
fn append_decimal(out: &mut String, n: u64)
    ensures
        final(out)@ == old(out)@ + decimal_nat(n as nat),
    decreases n,
{
    if n >= 10 {
        append_decimal(out, n / 10);
    }
    out.append(digit_text(n % 10));
    assert(out@ =~= old(out)@ + decimal_nat(n as nat));
}

/// The decimal text of `v`, as `v.to_string()` gives it.
pub fn i64_text(v: i64) -> (r: String)
    ensures
        r@ == decimal_int(v as int),
{
    let mut out = String::new();
    if v < 0 {
        let minus = "-";
        proof {
            reveal_strlit("-");
        }
        out.append(minus);
        let magnitude: u64 = if v == i64::MIN {
            9223372036854775808u64
        } else {
            (-v) as u64
        };
        append_decimal(&mut out, magnitude);
        assert(out@ =~= decimal_int(v as int));
    } else {
        append_decimal(&mut out, v as u64);
        assert(out@ =~= decimal_int(v as int));
    }
    out
}

proof fn lemma_digits_value_prefix(s: Seq<char>, k: int)
    requires
        all_digits(s),
        0 <= k <= s.len(),
    ensures
        digits_value(s.take(k)) <= digits_value(s),
    decreases s.len(),
{
    if k < s.len() {
        assert(all_digits(s.drop_last()));
        assert(s.drop_last().take(k) =~= s.take(k));
        lemma_digits_value_prefix(s.drop_last(), k);
    } else {
        assert(s.take(k) =~= s);
    }
}

/// The value of `s` as a decimal `i64`, as `s.parse::<i64>().ok()` gives it.
pub fn parse_i64(s: &str) -> (r: Option<i64>)
    ensures
        r == parse_i64_spec(s@),
{
    let n = s.unicode_len();
    if n == 0 {
        return None;
    }
    let first = s.get_char(0);
    let start: usize = if first == '-' || first == '+' { 1 } else { 0 };
    let ghost digits = if start == 1 { s@.drop_first() } else { s@ };
    assert(digits =~= s@.subrange(start as int, n as int));
    if start == n {
        return None;
    }
    let limit: u128 = 9223372036854775808u128;
    let mut acc: u128 = 0;
    let mut i: usize = start;
    assert(s@.subrange(start as int, start as int) =~= Seq::<char>::empty());
    while i < n
        invariant
            n == s@.len(),
            start <= i <= n,
            start <= 1,
            n > 0,
            first == s@[0],
            start == (if first == '-' || first == '+' { 1usize } else { 0usize }),
            digits == (if start == 1 { s@.drop_first() } else { s@ }),
            digits =~= s@.subrange(start as int, n as int),
            all_digits(s@.subrange(start as int, i as int)),
            acc == digits_value(s@.subrange(start as int, i as int)),
            acc <= limit,
            limit == 9223372036854775808u128,
        decreases n - i,
    {
        let c = s.get_char(i);
        if !('0' <= c && c <= '9') {
            assert(digits[i - start] == c);
            assert(!all_digits(digits));
            return None;
        }
        let d: u128 = ((c as u32) - 48) as u128;
        let next = acc * 10 + d;
        let ghost prefix = s@.subrange(start as int, i + 1);
        assert(prefix.drop_last() =~= s@.subrange(start as int, i as int));
        assert(all_digits(prefix));
        if next > limit {
            proof {
                if all_digits(digits) {
                    assert(digits.take(i + 1 - start) =~= prefix);
                    lemma_digits_value_prefix(digits, i + 1 - start);
                }
            }
            return None;
        }
        acc = next;
        i = i + 1;
    }
    assert(s@.subrange(start as int, n as int) =~= digits);
    if first == '-' {
        let value: i128 = -(acc as i128);
        Some(value as i64)
    } else if acc <= 9223372036854775807u128 {
        Some(acc as i64)
    } else {
        None
    }
}

/// The last character of `s` when it is a decimal digit, as
/// `s.chars().last().and_then(|c| c.to_digit(10))` gives it.
pub fn last_digit(s: &str) -> (r: Option<u32>)
    ensures
        r == (if s@.len() > 0 && is_digit(s@.last()) { Some(digit_value(s@.last()) as u32) } else { None::<u32> }),
{
    let n = s.unicode_len();
    if n == 0 {
        return None;
    }
    let c = s.get_char(n - 1);
    if '0' <= c && c <= '9' {
        Some((c as u32) - 48)
    } else {
        None
    }
}

/// Facts about the decimal text of a natural number: it is a non-empty digit string
/// whose value is the number.
pub proof fn lemma_decimal_nat(n: nat)
    ensures
        decimal_nat(n).len() > 0,
        all_digits(decimal_nat(n)),
        digits_value(decimal_nat(n)) == n,
    decreases n,
{
    if n >= 10 {
        lemma_decimal_nat(n / 10);
        let s = decimal_nat(n);
        assert(s.drop_last() =~= decimal_nat(n / 10));
        assert(digit_value(s.last()) == n % 10);
        assert(digits_value(s) == digits_value(s.drop_last()) * 10 + (digit_value(s.last()) as nat));
        assert(digits_value(s.drop_last()) == n / 10);
        assert((n / 10) * 10 + n % 10 == n) by (nonlinear_arith);
        assert forall|i: int| 0 <= i < s.len() implies is_digit(#[trigger] s[i]) by {
            if i < s.len() - 1 {
                assert(s[i] == decimal_nat(n / 10)[i]);
            }
        }
    } else {
        let s = decimal_nat(n);
        assert(s.drop_last() =~= Seq::<char>::empty());
        assert(digits_value(s) == digits_value(s.drop_last()) * 10 + (digit_value(s.last()) as nat));
    }
}

/// Reading back the decimal text of an `i64` gives the same number.
pub proof fn lemma_parse_decimal(v: i64)
    ensures
        parse_i64_spec(decimal_int(v as int)) == Some(v),
{
    if v < 0 {
        let m: nat = (-v) as nat;
        lemma_decimal_nat(m);
        let s = decimal_int(v as int);
        assert(s.drop_first() =~= decimal_nat(m));
    } else {
        lemma_decimal_nat(v as nat);
        let s = decimal_int(v as int);
        assert(is_digit(s[0]));
    }
}

/// Splitting `a` followed by a stretch `b` without separators extends the last piece of
/// `a` by `b`.
pub proof fn lemma_split_plain(a: Seq<char>, b: Seq<char>, sep: char)
    requires
        !b.contains(sep),
    ensures
        split_on(a + b, sep) == split_on(a, sep).update(
            split_on(a, sep).len() - 1,
            split_on(a, sep).last() + b,
        ),
    decreases b.len(),
{
    lemma_split_nonempty(a, sep);
    let pieces = split_on(a, sep);
    if b.len() == 0 {
        assert(a + b =~= a);
        assert(pieces.last() + b =~= pieces.last());
        assert(pieces.update(pieces.len() - 1, pieces.last()) =~= pieces);
    } else {
        let b0 = b.drop_last();
        assert(!b0.contains(sep)) by {
            if b0.contains(sep) {
                let i = choose|i: int| 0 <= i < b0.len() && b0[i] == sep;
                assert(b[i] == sep);
            }
        }
        assert(b[b.len() - 1] != sep);
        lemma_split_plain(a, b0, sep);
        assert((a + b).drop_last() =~= a + b0);
        assert((a + b).last() == b.last());
        let rest = split_on(a + b0, sep);
        assert(rest.len() == pieces.len());
        assert(rest.last() == pieces.last() + b0);
        assert(split_on(a + b, sep) == rest.update(rest.len() - 1, rest.last().push(b.last())));
        assert((pieces.last() + b0).push(b.last()) =~= pieces.last() + b);
        assert(split_on(a + b, sep) =~= pieces.update(pieces.len() - 1, pieces.last() + b));
    }
}

/// `str::split` always yields a first piece.
pub proof fn lemma_split_nonempty(s: Seq<char>, sep: char)
    ensures
        split_on(s, sep).len() >= 1,
    decreases s.len(),
{
    if s.len() > 0 {
        lemma_split_nonempty(s.drop_last(), sep);
    }
}

/// A string without separators is a single piece.
pub proof fn lemma_split_single(a: Seq<char>, sep: char)
    requires
        !a.contains(sep),
    ensures
        split_on(a, sep) == seq![a],
{
    let empty = Seq::<char>::empty();
    lemma_split_plain(empty, a, sep);
    assert(empty + a =~= a);
    assert(empty + a == a);
    assert(split_on(empty, sep).update(0, empty + a) =~= seq![a]);
}

/// Three stretches without separators, joined by the separator, split back into the
/// three stretches.
pub proof fn lemma_split_three(a: Seq<char>, b: Seq<char>, c: Seq<char>, sep: char)
    requires
        !a.contains(sep),
        !b.contains(sep),
        !c.contains(sep),
    ensures
        split_on(a + seq![sep] + b + seq![sep] + c, sep) == seq![a, b, c],
{
    let empty = Seq::<char>::empty();
    lemma_split_single(a, sep);
    let s1 = a + seq![sep];
    assert(s1.drop_last() =~= a);
    assert(split_on(s1, sep) =~= seq![a, empty]);
    lemma_split_plain(s1, b, sep);
    assert(split_on(s1 + b, sep) =~= seq![a, b]);
    let s2 = s1 + b + seq![sep];
    assert(s2.drop_last() =~= s1 + b);
    assert(split_on(s2, sep) =~= seq![a, b, empty]);
    lemma_split_plain(s2, c, sep);
    assert(split_on(s2 + c, sep) =~= seq![a, b, c]);
    assert(a + seq![sep] + b + seq![sep] + c =~= s2 + c);
}

/// A decimal text holds no character but digits and a leading minus.
pub proof fn lemma_decimal_int_chars(v: int, c: char)
    requires
        c != '-',
        !is_digit(c),
    ensures
        !decimal_int(v).contains(c),
{
    let n: nat = if v < 0 { (-v) as nat } else { v as nat };
    lemma_decimal_nat(n);
    let s = decimal_int(v);
    if s.contains(c) {
        let i = choose|i: int| 0 <= i < s.len() && s[i] == c;
        if v < 0 {
            if i > 0 {
                assert(s[i] == decimal_nat(n)[i - 1]);
            }
        } else {
            assert(s[i] == decimal_nat(n)[i]);
        }
    }
}

/// `s` starts with `p`, so `p` occurs in `s`.
pub proof fn lemma_contains_prefix(s: Seq<char>, p: Seq<char>)
    requires
        p.len() <= s.len(),
        s.subrange(0, p.len() as int) == p,
    ensures
        seq_contains(s, p),
{
    assert(s.subrange(0, 0 + p.len() as int) == p);
}

/// A pattern whose first character is missing from `s` does not occur in `s`.
pub proof fn lemma_contains_first_char(s: Seq<char>, p: Seq<char>)
    requires
        p.len() > 0,
        !s.contains(p[0]),
    ensures
        !seq_contains(s, p),
{
    if seq_contains(s, p) {
        let i = choose|i: int| 0 <= i <= s.len() - p.len() && #[trigger] s.subrange(i, i + p.len()) == p;
        assert(s.subrange(i, i + p.len())[0] == s[i]);
    }
}

/// Where `p` occurs, so does every prefix of `p`.
pub proof fn lemma_contains_shorter(s: Seq<char>, p: Seq<char>, k: int)
    requires
        seq_contains(s, p),
        0 <= k <= p.len(),
    ensures
        seq_contains(s, p.subrange(0, k)),
{
    let i = choose|i: int| 0 <= i <= s.len() - p.len() && #[trigger] s.subrange(i, i + p.len()) == p;
    assert(s.subrange(i, i + k) =~= p.subrange(0, k));
    assert(s.subrange(i, i + p.subrange(0, k).len()) == p.subrange(0, k));
}

} // verus!
