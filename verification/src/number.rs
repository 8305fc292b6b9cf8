use vstd::prelude::*;

verus! {

/// Whether `c` is one of the ten decimal digits.
pub open spec fn is_digit(c: char) -> bool {
    '0' <= c && c <= '9'
}

/// The number that the digit `c` stands for.
pub open spec fn digit_value(c: char) -> int {
    c as int - '0' as int
}

/// The digit that stands for `d`, for `d` below ten.
pub open spec fn digit_char(d: int) -> char {
    if d == 0 {
        '0'
    } else if d == 1 {
        '1'
    } else if d == 2 {
        '2'
    } else if d == 3 {
        '3'
    } else if d == 4 {
        '4'
    } else if d == 5 {
        '5'
    } else if d == 6 {
        '6'
    } else if d == 7 {
        '7'
    } else if d == 8 {
        '8'
    } else {
        '9'
    }
}

/// Whether every character of `s` is a decimal digit.
pub open spec fn all_digits(s: Seq<char>) -> bool {
    forall|i: int| 0 <= i < s.len() ==> is_digit(#[trigger] s[i])
}

/// The number that a run of digits denotes, most significant digit first.
pub open spec fn digits_value(s: Seq<char>) -> int
    decreases s.len(),
{
    if s.len() == 0 {
        0
    } else {
        digits_value(s.drop_last()) * 10 + digit_value(s.last())
    }
}

/// The integer that `s` denotes as signed decimal text: an optional `+` or
/// `-`, then one digit or more and nothing else.
pub open spec fn signed_value(s: Seq<char>) -> Option<int> {
    if s.len() > 0 && (s[0] == '+' || s[0] == '-') {
        let body = s.drop_first();
        if body.len() > 0 && all_digits(body) {
            Some(
                if s[0] == '-' {
                    -digits_value(body)
                } else {
                    digits_value(body)
                },
            )
        } else {
            None
        }
    } else if s.len() > 0 && all_digits(s) {
        Some(digits_value(s))
    } else {
        None
    }
}

/// The integer that `s` denotes as unsigned decimal text: an optional `+`,
/// then one digit or more and nothing else.
pub open spec fn unsigned_value(s: Seq<char>) -> Option<int> {
    if s.len() > 0 && s[0] == '-' {
        None
    } else {
        signed_value(s)
    }
}

/// `signed_value`, kept only where it lies between `min` and `max`.
pub open spec fn signed_value_within(s: Seq<char>, min: int, max: int) -> Option<int> {
    match signed_value(s) {
        Some(n) => if min <= n <= max {
            Some(n)
        } else {
            None
        },
        None => None,
    }
}

/// What `s` denotes as a 32-bit signed integer, if anything.
pub open spec fn i32_value(s: Seq<char>) -> Option<int> {
    signed_value_within(s, i32::MIN as int, i32::MAX as int)
}

/// What `s` denotes as an 8-bit signed integer, if anything.
pub open spec fn i8_value(s: Seq<char>) -> Option<int> {
    signed_value_within(s, i8::MIN as int, i8::MAX as int)
}

/// What `s` denotes as a 32-bit unsigned integer, if anything.
pub open spec fn u32_value(s: Seq<char>) -> Option<int> {
    match unsigned_value(s) {
        Some(n) => if 0 <= n <= u32::MAX {
            Some(n)
        } else {
            None
        },
        None => None,
    }
}

/// The digits of `n`, most significant first, without leading zeros.
pub open spec fn decimal_digits(n: nat) -> Seq<char>
    decreases n,
{
    if n < 10 {
        seq![digit_char(n as int)]
    } else {
        decimal_digits(n / 10).push(digit_char((n % 10) as int))
    }
}

/// `n` as decimal text, with a leading `-` where it is negative.
pub open spec fn decimal(n: int) -> Seq<char> {
    if n < 0 {
        seq!['-'] + decimal_digits((-n) as nat)
    } else {
        decimal_digits(n as nat)
    }
}

/// A run of digits denotes no negative number.
pub proof fn lemma_digits_value_is_natural(s: Seq<char>)
    requires
        all_digits(s),
    ensures
        digits_value(s) >= 0,
    decreases s.len(),
{
    if s.len() > 0 {
        assert forall|i: int| 0 <= i < s.drop_last().len() implies is_digit(
            #[trigger] s.drop_last()[i],
        ) by {
            assert(s.drop_last()[i] == s[i]);
        }
        lemma_digits_value_is_natural(s.drop_last());
        assert(is_digit(s.last()));
    }
}

/// The digits written for a number are digits, and denote that number.
pub proof fn lemma_decimal_digits(n: nat)
    ensures
        decimal_digits(n).len() > 0,
        all_digits(decimal_digits(n)),
        digits_value(decimal_digits(n)) == n,
    decreases n,
{
    if n < 10 {
        let s = decimal_digits(n);
        assert(s.drop_last().len() == 0);
        assert(digits_value(s.drop_last()) == 0);
    } else {
        lemma_decimal_digits(n / 10);
        let s = decimal_digits(n);
        assert(s.drop_last() == decimal_digits(n / 10));
        assert(s.last() == digit_char((n % 10) as int));
    }
}

/// Reading what was written gives the number back.
pub proof fn lemma_decimal_reads_back(n: int)
    ensures
        signed_value(decimal(n)) == Some(n),
        n >= 0 ==> unsigned_value(decimal(n)) == Some(n),
        forall|i: int| 0 <= i < decimal(n).len() ==> decimal(n)[i] != ':',
{
    if n < 0 {
        lemma_decimal_digits((-n) as nat);
        assert(decimal(n).drop_first() == decimal_digits((-n) as nat));
    } else {
        lemma_decimal_digits(n as nat);
        assert(is_digit(decimal(n)[0]));
    }
}

/// Whether `c` is a decimal digit.
pub fn digit(c: char) -> (yes: bool)
    ensures
        yes == is_digit(c),
{
    c >= '0' && c <= '9'
}

/// The number a digit stands for.
fn value_of_digit(c: char) -> (d: i64)
    requires
        is_digit(c),
    ensures
        d == digit_value(c),
        0 <= d <= 9,
{
    if c == '0' {
        0
    } else if c == '1' {
        1
    } else if c == '2' {
        2
    } else if c == '3' {
        3
    } else if c == '4' {
        4
    } else if c == '5' {
        5
    } else if c == '6' {
        6
    } else if c == '7' {
        7
    } else if c == '8' {
        8
    } else {
        9
    }
}

/// The digit that stands for a number below ten.
fn digit_of_value(d: u64) -> (c: char)
    requires
        d < 10,
    ensures
        c == digit_char(d as int),
{
    if d == 0 {
        '0'
    } else if d == 1 {
        '1'
    } else if d == 2 {
        '2'
    } else if d == 3 {
        '3'
    } else if d == 4 {
        '4'
    } else if d == 5 {
        '5'
    } else if d == 6 {
        '6'
    } else if d == 7 {
        '7'
    } else if d == 8 {
        '8'
    } else {
        '9'
    }
}

/// The largest magnitude that the readers below tell apart from "too large".
pub const READ_LIMIT: i64 = 4_294_967_295;

/// Reads the digits of `v` from `start` on. The result is `None` where a
/// character there is no digit or there is none at all, the number where it
/// is at most `READ_LIMIT`, and `READ_LIMIT + 1` where it is larger.
fn read_digits(v: &Vec<char>, start: usize) -> (r: Option<i64>)
    requires
        start <= v.len(),
    ensures
        r is Some <==> (start < v.len() && all_digits(v@.skip(start as int))),
        r matches Some(n) ==> 0 <= n <= READ_LIMIT + 1,
        r matches Some(n) ==> {
            let value = digits_value(v@.skip(start as int));
            if value <= READ_LIMIT {
                n == value
            } else {
                n == READ_LIMIT + 1
            }
        },
{
    if start >= v.len() {
        return None;
    }
    let ghost body = v@.skip(start as int);
    let mut acc: i64 = 0;
    let mut i: usize = start;
    while i < v.len()
        invariant
            start <= i <= v.len(),
            body == v@.skip(start as int),
            all_digits(body.take(i - start)),
            0 <= acc <= READ_LIMIT + 1,
            digits_value(body.take(i - start)) <= READ_LIMIT ==> acc == digits_value(
                body.take(i - start),
            ),
            digits_value(body.take(i - start)) > READ_LIMIT ==> acc == READ_LIMIT + 1,
        decreases v.len() - i,
    {
        let c = v[i];
        let ghost before = body.take(i - start);
        let ghost after = body.take(i - start + 1);
        assert(body[i - start] == c);
        assert(after.drop_last() == before);
        assert(after.last() == c);
        if !digit(c) {
            assert(!all_digits(body));
            return None;
        }
        assert(all_digits(after)) by {
            assert forall|j: int| 0 <= j < after.len() implies is_digit(#[trigger] after[j]) by {
                if j < before.len() {
                    assert(after[j] == before[j]);
                }
            }
        }
        proof {
            lemma_digits_value_is_natural(before);
        }
        let d = value_of_digit(c);
        if acc > READ_LIMIT {
            acc = READ_LIMIT + 1;
        } else {
            acc = acc * 10 + d;
            if acc > READ_LIMIT {
                acc = READ_LIMIT + 1;
            }
        }
        i += 1;
    }
    assert(body.take(i - start) == body);
    Some(acc)
}

/// Reads `v` as signed decimal text, or as unsigned text where `signed` is
/// false, and keeps a value between `min` and `max`.
pub(crate) fn read_integer(v: &Vec<char>, signed: bool, min: i64, max: i64) -> (r: Option<i64>)
    requires
        -READ_LIMIT <= min <= 0 <= max <= READ_LIMIT,
    ensures
        r == match (if signed {
            signed_value(v@)
        } else {
            unsigned_value(v@)
        }) {
            Some(n) => if min <= n <= max {
                Some(n as i64)
            } else {
                None
            },
            None => None,
        },
{
    if v.len() == 0 {
        return None;
    }
    let first = v[0];
    if first == '-' && !signed {
        return None;
    }
    let negative = first == '-';
    let start: usize = if first == '+' || first == '-' {
        1
    } else {
        0
    };
    proof {
        if start == 1 {
            assert(v@.skip(1) == v@.drop_first());
        } else {
            assert(v@.skip(0) == v@);
        }
    }
    match read_digits(v, start) {
        None => None,
        Some(magnitude) => {
            let n: i64 = if negative {
                -magnitude
            } else {
                magnitude
            };
            if min <= n && n <= max {
                Some(n)
            } else {
                None
            }
        },
    }
}

/// The digits of `n`.
fn digits_of(n: u64) -> (v: Vec<char>)
    ensures
        v@ == decimal_digits(n as nat),
    decreases n,
{
    if n < 10 {
        let mut v: Vec<char> = Vec::new();
        v.push(digit_of_value(n));
        v
    } else {
        let mut v = digits_of(n / 10);
        v.push(digit_of_value(n % 10));
        v
    }
}

/// `n` as decimal text.
pub fn decimal_of(n: i64) -> (v: Vec<char>)
    ensures
        v@ == decimal(n as int),
{
    if n < 0 {
        let magnitude: u64 = if n == i64::MIN {
            9_223_372_036_854_775_808
        } else {
            (-n) as u64
        };
        let mut v: Vec<char> = Vec::new();
        v.push('-');
        let digits = digits_of(magnitude);
        let mut i: usize = 0;
        while i < digits.len()
            invariant
                i <= digits.len(),
                v@ == seq!['-'] + digits@.take(i as int),
            decreases digits.len() - i,
        {
            v.push(digits[i]);
            i += 1;
        }
        assert(digits@.take(digits.len() as int) == digits@);
        v
    } else {
        digits_of(n as u64)
    }
}

} // verus!
