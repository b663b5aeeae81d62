use vstd::prelude::*;

verus! {

/// Whether `c` is an ASCII decimal digit.
pub open spec fn is_digit(c: char) -> bool {
    '0' <= c && c <= '9'
}

/// The value of a decimal digit.
pub open spec fn digit_value(c: char) -> int {
    c as int - '0' as int
}

/// Whether every character of `s` is a decimal digit.
pub open spec fn all_digits(s: Seq<char>) -> bool {
    forall|i: int| 0 <= i < s.len() ==> is_digit(#[trigger] s[i])
}

/// The value of a string of decimal digits, most significant first.
pub open spec fn digits_value(s: Seq<char>) -> int
    decreases s.len(),
{
    if s.len() == 0 {
        0
    } else {
        digits_value(s.drop_last()) * 10 + digit_value(s.last())
    }
}

/// The integer that `s` spells: an optional sign, then one or more decimal
/// digits and nothing else. A `-` is read only where `signed`; a lone sign
/// and the empty string spell nothing. The range of the target type is not
/// looked at here.
pub open spec fn parsed_integer(s: Seq<char>, signed: bool) -> Option<int> {
    if s.len() == 0 {
        None
    } else if (s[0] == '+' || s[0] == '-') && s.len() == 1 {
        None
    } else if s[0] == '+' {
        if all_digits(s.skip(1)) {
            Some(digits_value(s.skip(1)))
        } else {
            None
        }
    } else if s[0] == '-' && signed {
        if all_digits(s.skip(1)) {
            Some(-digits_value(s.skip(1)))
        } else {
            None
        }
    } else if all_digits(s) {
        Some(digits_value(s))
    } else {
        None
    }
}

/// A longer string of digits is worth at least as much as its prefix.
pub proof fn lemma_digits_value_grows(s: Seq<char>, i: int, j: int)
    requires
        0 <= i <= j <= s.len(),
        all_digits(s.take(j)),
    ensures
        0 <= digits_value(s.take(i)) <= digits_value(s.take(j)),
    decreases j,
{
    if j > 0 {
        assert(s.take(j).drop_last() =~= s.take(j - 1));
        assert(is_digit(s.take(j)[j - 1]));
        if i < j {
            lemma_digits_value_grows(s, i, j - 1);
        } else {
            lemma_digits_value_grows(s, j - 1, j - 1);
        }
    } else {
        assert(s.take(0) =~= Seq::<char>::empty());
    }
}

/// Integer types that text can be parsed into.
pub trait DecimalInt: Sized {
    spec fn signed() -> bool;

    spec fn min_value() -> int;

    spec fn max_value() -> int;

    spec fn value(&self) -> int;

    fn is_signed() -> (r: bool)
        ensures
            r == Self::signed(),
    ;

    fn bounds() -> (r: (i128, i128))
        ensures
            r.0 == Self::min_value(),
            r.1 == Self::max_value(),
            -0x1_0000_0000_0000_0000 < r.0 <= 0 < r.1 < 0x1_0000_0000_0000_0000,
    ;

    fn from_i128(v: i128) -> (r: Self)
        requires
            Self::min_value() <= v <= Self::max_value(),
        ensures
            r.value() == v,
    ;
}

impl DecimalInt for u8 {
    open spec fn signed() -> bool {
        false
    }

    open spec fn min_value() -> int {
        0
    }

    open spec fn max_value() -> int {
        u8::MAX as int
    }

    open spec fn value(&self) -> int {
        *self as int
    }

    fn is_signed() -> (r: bool) {
        false
    }

    fn bounds() -> (r: (i128, i128)) {
        (0, u8::MAX as i128)
    }

    fn from_i128(v: i128) -> (r: Self) {
        v as u8
    }
}

impl DecimalInt for u32 {
    open spec fn signed() -> bool {
        false
    }

    open spec fn min_value() -> int {
        0
    }

    open spec fn max_value() -> int {
        u32::MAX as int
    }

    open spec fn value(&self) -> int {
        *self as int
    }

    fn is_signed() -> (r: bool) {
        false
    }

    fn bounds() -> (r: (i128, i128)) {
        (0, u32::MAX as i128)
    }

    fn from_i128(v: i128) -> (r: Self) {
        v as u32
    }
}

impl DecimalInt for u64 {
    open spec fn signed() -> bool {
        false
    }

    open spec fn min_value() -> int {
        0
    }

    open spec fn max_value() -> int {
        u64::MAX as int
    }

    open spec fn value(&self) -> int {
        *self as int
    }

    fn is_signed() -> (r: bool) {
        false
    }

    fn bounds() -> (r: (i128, i128)) {
        (0, u64::MAX as i128)
    }

    fn from_i128(v: i128) -> (r: Self) {
        v as u64
    }
}

impl DecimalInt for i32 {
    open spec fn signed() -> bool {
        true
    }

    open spec fn min_value() -> int {
        i32::MIN as int
    }

    open spec fn max_value() -> int {
        i32::MAX as int
    }

    open spec fn value(&self) -> int {
        *self as int
    }

    fn is_signed() -> (r: bool) {
        true
    }

    fn bounds() -> (r: (i128, i128)) {
        (i32::MIN as i128, i32::MAX as i128)
    }

    fn from_i128(v: i128) -> (r: Self) {
        v as i32
    }
}

impl DecimalInt for i64 {
    open spec fn signed() -> bool {
        true
    }

    open spec fn min_value() -> int {
        i64::MIN as int
    }

    open spec fn max_value() -> int {
        i64::MAX as int
    }

    open spec fn value(&self) -> int {
        *self as int
    }

    fn is_signed() -> (r: bool) {
        true
    }

    fn bounds() -> (r: (i128, i128)) {
        (i64::MIN as i128, i64::MAX as i128)
    }

    fn from_i128(v: i128) -> (r: Self) {
        v as i64
    }
}

/// What parsing `s` into `T` gives: the value it spells when that is in
/// the range of `T`.
pub open spec fn parse_result<T: DecimalInt>(s: Seq<char>) -> Option<int> {
    match parsed_integer(s, T::signed()) {
        Some(n) => if T::min_value() <= n <= T::max_value() {
            Some(n)
        } else {
            None
        },
        None => None,
    }
}

/// Parses `s` as a decimal integer of type `T`, as `str::parse` does.
pub fn parse_decimal<T: DecimalInt>(s: &str) -> (r: Option<T>)
    ensures
        match parse_result::<T>(s@) {
            Some(n) => r matches Some(v) && v.value() == n,
            None => r is None,
        },
{
    let n = s.unicode_len();
    if n == 0 {
        return None;
    }
    let first = s.get_char(0);
    if (first == '+' || first == '-') && n == 1 {
        return None;
    }
    let signed = T::is_signed();
    let (lo, hi) = T::bounds();
    let negative = first == '-' && signed;
    let start: usize = if first == '+' || negative { 1 } else { 0 };
    let ghost digits = s@.skip(start as int);
    assert(s@.skip(0) =~= s@);
    assert(s@[0] == first);
    assert(parsed_integer(s@, T::signed()) == if all_digits(digits) {
        Some(if negative { -digits_value(digits) } else { digits_value(digits) })
    } else {
        None::<int>
    });
    let limit: i128 = 0x1_0000_0000_0000_0000;
    let mut acc: i128 = 0;
    let mut i: usize = start;
    while i < n
        invariant
            start <= i <= n,
            n == s@.len(),
            start < n,
            digits == s@.skip(start as int),
            parsed_integer(s@, T::signed()) == if all_digits(digits) {
                Some(if negative { -digits_value(digits) } else { digits_value(digits) })
            } else {
                None::<int>
            },
            T::min_value() > -0x1_0000_0000_0000_0000,
            T::max_value() < 0x1_0000_0000_0000_0000,
            all_digits(digits.take(i - start)),
            acc == digits_value(digits.take(i - start)),
            0 <= acc <= limit,
            limit == 0x1_0000_0000_0000_0000,
        decreases n - i,
    {
        let c = s.get_char(i);
        if c < '0' || c > '9' {
            proof {
                assert(digits[i - start] == c);
                assert(!all_digits(digits));
            }
            return None;
        }
        let d: i128 = (c as u32 - '0' as u32) as i128;
        proof {
            let k = i - start;
            assert(digits.take(k + 1).drop_last() =~= digits.take(k));
            assert(digits.take(k + 1).last() == c);
            assert(all_digits(digits.take(k + 1))) by {
                assert forall|j: int| 0 <= j < k + 1 implies is_digit(#[trigger] digits.take(k + 1)[j]) by {
                    if j < k {
                        assert(digits.take(k + 1)[j] == digits.take(k)[j]);
                    }
                }
            }
        }
        acc = acc * 10 + d;
        i = i + 1;
        if acc > limit {
            proof {
                let k = i - start;
                if all_digits(digits) {
                    assert(digits.take(digits.len() as int) =~= digits);
                    lemma_digits_value_grows(digits, k, digits.len() as int);
                }
            }
            return None;
        }
    }
    proof {
        assert(digits.take(i - start) =~= digits);
    }
    let value: i128 = if negative { -acc } else { acc };
    if value < lo || value > hi {
        return None;
    }
    Some(T::from_i128(value))
}

/// The character of a decimal digit.
pub open spec fn digit_char(d: nat) -> char {
    if d == 0 {
        '0'
    } else if d == 1 {
        '1'
    } else if d == 2 {
        '2'
    } else if d == 3 {
        '3'
    } else if d == 4 {
        '4'
    } else if d == 5 {
        '5'
    } else if d == 6 {
        '6'
    } else if d == 7 {
        '7'
    } else if d == 8 {
        '8'
    } else {
        '9'
    }
}

/// The decimal digits of `v`, most significant first, without leading zeros.
pub open spec fn decimal_chars(v: nat) -> Seq<char>
    decreases v,
{
    if v < 10 {
        seq![digit_char(v)]
    } else {
        decimal_chars(v / 10) + seq![digit_char(v % 10)]
    }
}

fn append_digit(s: &mut String, d: u32)
    requires
        d < 10,
    ensures
        final(s)@ == old(s)@ + seq![digit_char(d as nat)],
{
    proof {
        reveal_strlit("0");
        reveal_strlit("1");
        reveal_strlit("2");
        reveal_strlit("3");
        reveal_strlit("4");
        reveal_strlit("5");
        reveal_strlit("6");
        reveal_strlit("7");
        reveal_strlit("8");
        reveal_strlit("9");
    }
    let digit = match d {
        0 => "0",
        1 => "1",
        2 => "2",
        3 => "3",
        4 => "4",
        5 => "5",
        6 => "6",
        7 => "7",
        8 => "8",
        _ => "9",
    };
    s.append(digit);
}

/// Appends the decimal digits of `v` to `s`, as `to_string` writes them.
pub fn append_decimal(s: &mut String, v: u32)
    ensures
        final(s)@ == old(s)@ + decimal_chars(v as nat),
    decreases v,
{
    if v >= 10 {
        append_decimal(s, v / 10);
        append_digit(s, v % 10);
        proof {
            assert(decimal_chars(v as nat) == decimal_chars((v / 10) as nat) + seq![digit_char((v % 10) as nat)]);
        }
    } else {
        append_digit(s, v);
    }
}

proof fn lemma_digit_char(d: nat)
    requires
        d < 10,
    ensures
        is_digit(digit_char(d)),
        digit_value(digit_char(d)) == d,
{
}

proof fn lemma_decimal_chars_digits(v: nat)
    ensures
        all_digits(decimal_chars(v)),
        digits_value(decimal_chars(v)) == v,
        decimal_chars(v).len() > 0,
    decreases v,
{
    lemma_digit_char(v % 10);
    if v >= 10 {
        lemma_decimal_chars_digits(v / 10);
        let s = decimal_chars(v);
        let p = decimal_chars(v / 10);
        assert(s.drop_last() =~= p);
        assert(s.last() == digit_char(v % 10));
        assert(digits_value(s) == digits_value(p) * 10 + digit_value(s.last()));
        assert(digits_value(s) == v);
        assert(all_digits(s)) by {
            assert forall|i: int| 0 <= i < s.len() implies is_digit(#[trigger] s[i]) by {
                if i < p.len() {
                    assert(s[i] == p[i]);
                }
            }
        }
    } else {
        let s = decimal_chars(v);
        assert(s.drop_last() =~= Seq::<char>::empty());
        assert(s.last() == digit_char(v));
        assert(v % 10 == v);
        assert(digits_value(s) == digits_value(s.drop_last()) * 10 + digit_value(s.last()));
        assert(digits_value(s.drop_last()) == 0);
        assert(digits_value(s) == v);
    }
}

/// Reading back the decimal text of a number gives the number.
pub proof fn lemma_decimal_round_trip(v: u32)
    ensures
        parse_result::<u32>(decimal_chars(v as nat)) == Some(v as int),
{
    lemma_decimal_chars_digits(v as nat);
    let s = decimal_chars(v as nat);
    assert(is_digit(s[0]));
}

} // verus!
