//! Reading text: the characters of a string, and decimal integers.

use vstd::prelude::*;

verus! {

/// The characters of a string, in order.
pub fn chars_of(s: &str) -> (cs: Vec<char>)
    ensures
        cs@ == s@,
{
    let n: usize = s.unicode_len();
    let mut cs: Vec<char> = Vec::new();
    let mut i: usize = 0;
    while i < n
        invariant
            n == s@.len(),
            i <= n,
            cs@ == s@.take(i as int),
        decreases n - i,
    {
        cs.push(s.get_char(i));
        assert(s@.take(i + 1) == s@.take(i as int).push(s@[i as int]));
        i = i + 1;
    }
    assert(s@.take(n as int) == s@);
    cs
}

/// True of the ASCII digits `0` to `9`.
pub open spec fn is_digit(c: char) -> bool {
    48 <= (c as u32) && (c as u32) <= 57
}

/// True when every character is an ASCII digit.
pub open spec fn all_digits(s: Seq<char>) -> bool {
    forall|i: int| 0 <= i < s.len() ==> is_digit(#[trigger] s[i])
}

/// The value of a run of decimal digits, most significant first.
pub open spec fn digits_value(s: Seq<char>) -> int
    decreases s.len(),
{
    if s.len() == 0 {
        0
    } else {
        digits_value(s.drop_last()) * 10 + ((s.last() as u32) - 48)
    }
}

/// The value that `str::parse::<i32>` gives for a text: an optional `+` or
/// `-`, then one or more ASCII digits, whose value lies in the `i32` range;
/// `None` for any other text.
pub open spec fn parse_i32(text: Seq<char>) -> Option<i32> {
    let negative = text.len() > 0 && text[0] == '-';
    let signed = text.len() > 0 && (text[0] == '-' || text[0] == '+');
    let body = if signed { text.drop_first() } else { text };
    let value = if negative { -digits_value(body) } else { digits_value(body) };
    if body.len() == 0 || !all_digits(body) || value < i32::MIN || value > i32::MAX {
        None
    } else {
        Some(value as i32)
    }
}

proof fn lemma_digits_nonnegative(s: Seq<char>)
    requires
        all_digits(s),
    ensures
        digits_value(s) >= 0,
    decreases s.len(),
{
    if s.len() > 0 {
        assert(all_digits(s.drop_last())) by {
            assert forall|i: int| 0 <= i < s.drop_last().len() implies is_digit(#[trigger] s.drop_last()[i]) by {
                assert(s.drop_last()[i] == s[i]);
            }
        }
        lemma_digits_nonnegative(s.drop_last());
        assert(is_digit(s[s.len() - 1]));
    }
}

/// A run of digits is worth at least any of its prefixes.
proof fn lemma_digits_grow(s: Seq<char>, k: int)
    requires
        all_digits(s),
        0 <= k <= s.len(),
    ensures
        digits_value(s.subrange(0, k)) <= digits_value(s),
    decreases s.len(),
{
    if k < s.len() {
        let t = s.drop_last();
        assert(all_digits(t)) by {
            assert forall|i: int| 0 <= i < t.len() implies is_digit(#[trigger] t[i]) by {
                assert(t[i] == s[i]);
            }
        }
        lemma_digits_grow(t, k);
        assert(t.subrange(0, k) == s.subrange(0, k));
        lemma_digits_nonnegative(t);
        assert(is_digit(s[s.len() - 1]));
    } else {
        assert(s.subrange(0, k) == s);
    }
}

/// Parses a decimal `i32` exactly as `str::parse::<i32>` does.
pub fn parse_i32_text(text: &str) -> (r: Option<i32>)
    ensures
        r == parse_i32(text@),
{
    let cs = chars_of(text);
    let n: usize = cs.len();
    let mut start: usize = 0;
    let mut negative = false;
    if n > 0 && cs[0] == '-' {
        negative = true;
        start = 1;
    } else if n > 0 && cs[0] == '+' {
        start = 1;
    }
    let ghost body = cs@.subrange(start as int, n as int);
    assert(body =~= (if text@.len() > 0 && (text@[0] == '-' || text@[0] == '+') { text@.drop_first() } else { text@ }));
    if start == n {
        return None;
    }
    let mut acc: u64 = 0;
    let mut i: usize = start;
    assert(cs@.subrange(start as int, start as int) == Seq::<char>::empty());
    while i < n
        invariant
            n == cs@.len(),
            cs@ == text@,
            start <= i <= n,
            body == cs@.subrange(start as int, n as int),
            body == (if text@.len() > 0 && (text@[0] == '-' || text@[0] == '+') { text@.drop_first() } else { text@ }),
            negative == (text@.len() > 0 && text@[0] == '-'),
            all_digits(cs@.subrange(start as int, i as int)),
            acc as int == digits_value(cs@.subrange(start as int, i as int)),
            acc <= 2147483648,
        decreases n - i,
    {
        let c: char = cs[i];
        let code: u32 = c as u32;
        let prefix = Ghost(cs@.subrange(start as int, i as int));
        let longer = Ghost(cs@.subrange(start as int, i + 1));
        assert(longer@.drop_last() =~= prefix@);
        assert(longer@.last() == c);
        assert(body[i - start] == c);
        if code < 48 || code > 57 {
            assert(!is_digit(body[i - start]));
            assert(!all_digits(body));
            return None;
        }
        acc = acc * 10 + (code - 48) as u64;
        assert(all_digits(longer@)) by {
            assert forall|k: int| 0 <= k < longer@.len() implies is_digit(#[trigger] longer@[k]) by {
                if k < prefix@.len() {
                    assert(longer@[k] == prefix@[k]);
                }
            }
        }
        if acc > 2147483648 {
            proof {
                if all_digits(body) {
                    assert(body.subrange(0, i + 1 - start) =~= longer@);
                    lemma_digits_grow(body, i + 1 - start);
                }
                assert(parse_i32(text@) is None);
            }
            return None;
        }
        i = i + 1;
    }
    assert(cs@.subrange(start as int, n as int) == body);
    if negative {
        Some((0i64 - acc as i64) as i32)
    } else if acc <= 2147483647 {
        Some(acc as i32)
    } else {
        None
    }
}

/// True of the characters `0` to `9`.
pub open spec fn decimal(c: char) -> bool {
    48 <= (c as u32) && (c as u32) <= 57
}

/// Every one of the ten digits parses on its own as its value.
pub proof fn single_digits_parse(d: char)
    requires
        decimal(d),
    ensures
        parse_i32(seq![d]) == Some(((d as u32) - 48) as i32),
{
    let t = seq![d];
    assert(t.drop_last() =~= Seq::<char>::empty());
    assert(t[0] == d);
    assert(t.last() == d);
    assert(all_digits(t));
    assert(('-' as u32) == 45 && ('+' as u32) == 43);
    assert(digits_value(Seq::<char>::empty()) == 0);
    assert(digits_value(t.drop_last()) == 0);
    assert(digits_value(t) == (d as u32) - 48);
}

/// Appending a digit to an unsigned decimal text multiplies its value by
/// ten and adds the digit, as long as the result fits in an `i32`.
pub proof fn appended_digit_scales(s: Seq<char>, d: char, x: i32)
    requires
        s.len() > 0,
        decimal(s[0]),
        parse_i32(s) == Some(x),
        decimal(d),
        x * 10 + ((d as u32) - 48) <= i32::MAX,
    ensures
        parse_i32(s.push(d)) == Some((x * 10 + ((d as u32) - 48)) as i32),
{
    let t = s.push(d);
    assert(t[0] == s[0]);
    assert(t.drop_last() =~= s);
    assert(all_digits(s));
    assert(all_digits(t)) by {
        assert forall|i: int| 0 <= i < t.len() implies is_digit(#[trigger] t[i]) by {
            if i < s.len() {
                assert(t[i] == s[i]);
            }
        }
    }
    lemma_digits_nonnegative(s);
}

/// Appending a digit to an unsigned decimal text whose value would then
/// pass `i32::MAX` makes the text unparsable: nothing wraps around.
pub proof fn overflow_is_refused(s: Seq<char>, d: char, x: i32)
    requires
        s.len() > 0,
        decimal(s[0]),
        parse_i32(s) == Some(x),
        decimal(d),
        x * 10 + ((d as u32) - 48) > i32::MAX,
    ensures
        parse_i32(s.push(d)) is None,
{
    let t = s.push(d);
    assert(t[0] == s[0]);
    assert(t.drop_last() =~= s);
    lemma_digits_nonnegative(s);
}

/// A leading `-` negates an unsigned decimal text's value, and a leading
/// `+` keeps it.
pub proof fn signs_apply(s: Seq<char>, x: i32)
    requires
        s.len() > 0,
        decimal(s[0]),
        parse_i32(s) == Some(x),
    ensures
        parse_i32(seq!['-'] + s) == Some((-x) as i32),
        parse_i32(seq!['+'] + s) == Some(x),
{
    let n = seq!['-'] + s;
    let p = seq!['+'] + s;
    assert(n[0] == '-');
    assert(p[0] == '+');
    assert(n.drop_first() =~= s);
    assert(p.drop_first() =~= s);
    lemma_digits_nonnegative(s);
}

/// A text is refused when it is empty, is a lone sign, or has a character
/// other than a digit anywhere but a leading sign.
pub proof fn non_digits_are_refused(s: Seq<char>, i: int)
    requires
        0 <= i < s.len(),
        !decimal(s[i]),
        i > 0 || (s[0] != '-' && s[0] != '+'),
    ensures
        parse_i32(s) is None,
        parse_i32(Seq::<char>::empty()) is None,
        parse_i32(seq!['-']) is None,
        parse_i32(seq!['+']) is None,
{
    assert(seq!['-'].drop_first() =~= Seq::<char>::empty());
    assert(seq!['+'].drop_first() =~= Seq::<char>::empty());
    let signed = s[0] == '-' || s[0] == '+';
    if signed {
        assert(s.drop_first()[i - 1] == s[i]);
        assert(!is_digit(s.drop_first()[i - 1]));
    } else {
        assert(!is_digit(s[i]));
    }
}

} // verus!
