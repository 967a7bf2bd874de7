use vstd::prelude::*;

verus! {

/// The ASCII digit for `d` in `0..10`.
pub open spec fn digit_char(d: int) -> char {
    if d == 0 {
        '0'
    } else if d == 1 {
        '1'
    } else if d == 2 {
        '2'
    } else if d == 3 {
        '3'
    } else if d == 4 {
        '4'
    } else if d == 5 {
        '5'
    } else if d == 6 {
        '6'
    } else if d == 7 {
        '7'
    } else if d == 8 {
        '8'
    } else {
        '9'
    }
}

/// Decimal notation of `n`, without leading zeros.
pub open spec fn decimal(n: nat) -> Seq<char>
    decreases n,
{
    if n < 10 {
        seq![digit_char(n as int)]
    } else {
        decimal(n / 10).push(digit_char((n % 10) as int))
    }
}

pub open spec fn is_digit(c: char) -> bool {
    '0' <= c <= '9'
}

pub open spec fn digit_value(c: char) -> int {
    c as int - '0' as int
}

/// `s` is a non-empty run of ASCII digits.
pub open spec fn all_digits(s: Seq<char>) -> bool {
    &&& s.len() > 0
    &&& forall|i: int| 0 <= i < s.len() ==> is_digit(#[trigger] s[i])
}

/// Value of a run of digits, most significant first.
pub open spec fn digits_value(s: Seq<char>) -> int
    decreases s.len(),
{
    if s.len() == 0 {
        0
    } else {
        digits_value(s.drop_last()) * 10 + digit_value(s.last())
    }
}

/// The integer that `s` writes: an optional `+` or `-`, then decimal
/// digits; `None` for anything else.
pub open spec fn integer_value(s: Seq<char>) -> Option<int> {
    if s.len() > 0 && s[0] == '-' && all_digits(s.drop_first()) {
        Some(-digits_value(s.drop_first()))
    } else if s.len() > 0 && s[0] == '+' && all_digits(s.drop_first()) {
        Some(digits_value(s.drop_first()))
    } else if all_digits(s) {
        Some(digits_value(s))
    } else {
        None
    }
}

/// The `i64` that `s` writes, if it writes one in range.
pub open spec fn i64_value(s: Seq<char>) -> Option<i64> {
    match integer_value(s) {
        Some(v) => if i64::MIN <= v <= i64::MAX {
            Some(v as i64)
        } else {
            None
        },
        None => None,
    }
}

/// One-character string for the digit `d`.
fn digit_str(d: u64) -> (r: &'static str)
    requires
        d < 10,
    ensures
        r@ == seq![digit_char(d as int)],
{
    let r = if d == 0 {
        "0"
    } else if d == 1 {
        "1"
    } else if d == 2 {
        "2"
    } else if d == 3 {
        "3"
    } else if d == 4 {
        "4"
    } else if d == 5 {
        "5"
    } else if d == 6 {
        "6"
    } else if d == 7 {
        "7"
    } else if d == 8 {
        "8"
    } else {
        "9"
    };
    proof {
        reveal_strlit("0");
        reveal_strlit("1");
        reveal_strlit("2");
        reveal_strlit("3");
        reveal_strlit("4");
        reveal_strlit("5");
        reveal_strlit("6");
        reveal_strlit("7");
        reveal_strlit("8");
        reveal_strlit("9");
    }
    assert(r@ =~= seq![digit_char(d as int)]);
    r
}

/// Appends the decimal notation of `n` to `s`.
pub fn push_decimal(s: &mut String, n: u64)
    ensures
        final(s)@ == old(s)@ + decimal(n as nat),
    decreases n,
{
    if n < 10 {
        s.append(digit_str(n));
    } else {
        push_decimal(s, n / 10);
        s.append(digit_str(n % 10));
        assert(final(s)@ =~= old(s)@ + decimal(n as nat));
    }
}

/// Decimal notation of `n`.
pub fn decimal_string(n: u64) -> (r: String)
    ensures
        r@ == decimal(n as nat),
{
    let mut s = String::new();
    push_decimal(&mut s, n);
    assert(s@ =~= decimal(n as nat));
    s
}

proof fn lemma_digits_value_push(s: Seq<char>, c: char)
    ensures
        digits_value(s.push(c)) == digits_value(s) * 10 + digit_value(c),
{
    assert(s.push(c).drop_last() =~= s);
}

proof fn lemma_digits_value_nonneg(s: Seq<char>)
    requires
        forall|i: int| 0 <= i < s.len() ==> is_digit(#[trigger] s[i]),
    ensures
        digits_value(s) >= 0,
    decreases s.len(),
{
    if s.len() > 0 {
        let t = s.drop_last();
        assert forall|i: int| 0 <= i < t.len() implies is_digit(#[trigger] t[i]) by {
            assert(t[i] == s[i]);
        }
        lemma_digits_value_nonneg(t);
        assert(is_digit(s[s.len() - 1]));
    }
}

/// Value of the digits of `s` from index `start` on, if every one of them is
/// a digit and the value fits in `u64`.
fn digits_u64(s: &str, start: usize) -> (r: Option<u64>)
    requires
        start <= s@.len(),
    ensures
        r matches Some(v) ==> all_digits(s@.skip(start as int)) && v == digits_value(
            s@.skip(start as int),
        ),
        r is None ==> !all_digits(s@.skip(start as int)) || digits_value(s@.skip(start as int))
            > u64::MAX,
{
    let n = s.unicode_len();
    if start >= n {
        return None;
    }
    let ghost tail = s@.skip(start as int);
    let mut i = start;
    let mut acc: u64 = 0;
    while i < n
        invariant
            start <= i <= n,
            n == s@.len(),
            tail == s@.skip(start as int),
            forall|j: int| start <= j < i ==> is_digit(#[trigger] s@[j]),
            acc == digits_value(s@.subrange(start as int, i as int)),
        decreases n - i,
    {
        let c = s.get_char(i);
        let ghost prefix = s@.subrange(start as int, i as int);
        proof {
            assert(s@.subrange(start as int, i + 1) =~= prefix.push(c));
            lemma_digits_value_push(prefix, c);
        }
        if !('0' <= c && c <= '9') {
            assert(tail[i - start] == c);
            return None;
        }
        let d = (c as u32 - '0' as u32) as u64;
        match acc.checked_mul(10) {
            None => {
                proof {
                    assert forall|j: int| 0 <= j < i + 1 - start implies is_digit(
                        #[trigger] s@.subrange(start as int, i + 1)[j],
                    ) by {
                        assert(s@.subrange(start as int, i + 1)[j] == s@[start + j]);
                    }
                    lemma_digits_value_rest(s@, start as int, i + 1);
                }
                return None;
            },
            Some(m) => match m.checked_add(d) {
                None => {
                    proof {
                        assert forall|j: int| 0 <= j < i + 1 - start implies is_digit(
                            #[trigger] s@.subrange(start as int, i + 1)[j],
                        ) by {
                            assert(s@.subrange(start as int, i + 1)[j] == s@[start + j]);
                        }
                        lemma_digits_value_rest(s@, start as int, i + 1);
                    }
                    return None;
                },
                Some(v) => {
                    acc = v;
                },
            },
        }
        i = i + 1;
    }
    assert(s@.subrange(start as int, n as int) =~= tail);
    Some(acc)
}

/// Once a prefix of the digits already exceeds a bound, so does the whole
/// run.
proof fn lemma_digits_value_rest(s: Seq<char>, start: int, i: int)
    requires
        0 <= start < i <= s.len(),
        forall|j: int| 0 <= j < i - start ==> is_digit(#[trigger] s.subrange(start, i)[j]),
    ensures
        all_digits(s.skip(start)) ==> digits_value(s.skip(start)) >= digits_value(
            s.subrange(start, i),
        ),
    decreases s.len() - i,
{
    if i < s.len() && all_digits(s.skip(start)) {
        assert forall|j: int| 0 <= j < i + 1 - start implies is_digit(
            #[trigger] s.subrange(start, i + 1)[j],
        ) by {
            assert(s.subrange(start, i + 1)[j] == s.skip(start)[j]);
        }
        lemma_digits_value_rest(s, start, i + 1);
        assert(s.subrange(start, i + 1) =~= s.subrange(start, i).push(s[i]));
        assert forall|j: int| 0 <= j < s.subrange(start, i).len() implies is_digit(
            #[trigger] s.subrange(start, i)[j],
        ) by {
            assert(s.subrange(start, i)[j] == s.subrange(start, i + 1)[j]);
        }
        lemma_digits_value_nonneg(s.subrange(start, i));
        lemma_digits_value_push(s.subrange(start, i), s[i]);
        assert(s.subrange(start, i + 1).last() == s[i]);
        assert(is_digit(s.skip(start)[i - start]));
    } else if i == s.len() {
        assert(s.subrange(start, i) =~= s.skip(start));
    }
}

/// Parses a decimal `i64` with an optional sign, as `str::parse::<i64>`
/// reads one.
pub fn parse_i64(s: &str) -> (r: Option<i64>)
    ensures
        r == i64_value(s@),
{
    let n = s.unicode_len();
    if n == 0 {
        return None;
    }
    let first = s.get_char(0);
    let signed = first == '-' || first == '+';
    if signed {
        assert(s@.skip(1) =~= s@.drop_first());
        match digits_u64(s, 1) {
            None => {
                return None;
            },
            Some(m) => {
                if first == '-' {
                    if m <= 9223372036854775807 {
                        return Some(-(m as i64));
                    } else if m == 9223372036854775808 {
                        return Some(i64::MIN);
                    } else {
                        return None;
                    }
                } else {
                    if m <= 9223372036854775807 {
                        return Some(m as i64);
                    } else {
                        return None;
                    }
                }
            },
        }
    } else {
        assert(s@.skip(0) =~= s@);
        match digits_u64(s, 0) {
            None => {
                return None;
            },
            Some(m) => {
                if m <= 9223372036854775807 {
                    return Some(m as i64);
                } else {
                    return None;
                }
            },
        }
    }
}

/// Index of the first `c` in `s`, or `s.len()` if there is none.
pub open spec fn first_index(s: Seq<char>, c: char) -> int
    decreases s.len(),
{
    if s.len() == 0 {
        0
    } else if s[0] == c {
        0
    } else {
        1 + first_index(s.drop_first(), c)
    }
}

proof fn lemma_first_index_step(s: Seq<char>, c: char, i: int)
    requires
        0 <= i < s.len(),
        forall|j: int| 0 <= j < i ==> s[j] != c,
    ensures
        first_index(s, c) == i + first_index(s.skip(i), c),
    decreases i,
{
    if i > 0 {
        assert(s.drop_first().skip(i - 1) =~= s.skip(i));
        assert forall|j: int| 0 <= j < i - 1 implies s.drop_first()[j] != c by {
            assert(s.drop_first()[j] == s[j + 1]);
        }
        lemma_first_index_step(s.drop_first(), c, i - 1);
    } else {
        assert(s.skip(0) =~= s);
    }
}

/// Index of the first `c` in `s`, or its length if there is none.
pub fn find_char(s: &str, c: char) -> (r: usize)
    ensures
        r == first_index(s@, c),
        r <= s@.len(),
        r < s@.len() ==> s@[r as int] == c,
        forall|j: int| 0 <= j < r ==> s@[j] != c,
{
    let n = s.unicode_len();
    let mut i: usize = 0;
    while i < n
        invariant
            i <= n,
            n == s@.len(),
            forall|j: int| 0 <= j < i ==> s@[j] != c,
        decreases n - i,
    {
        if s.get_char(i) == c {
            proof {
                lemma_first_index_step(s@, c, i as int);
            }
            return i;
        }
        i = i + 1;
    }
    proof {
        if n > 0 {
            lemma_first_index_step(s@, c, n - 1);
            assert(s@.skip(n - 1)[0] == s@[n - 1]);
            assert(first_index(s@.skip(n - 1).drop_first(), c) == 0);
        }
    }
    n
}

} // verus!
