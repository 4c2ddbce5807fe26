use vstd::prelude::*;
use vstd::string::*;

verus! {

/// Calls `String::push`, which appends one character to the end of a string.
#[verifier::external_body]
pub(crate) fn push_char(s: &mut String, c: char)
    ensures
        final(s)@ == old(s)@.push(c),
{
    s.push(c)
}

/// Whether two texts are the same.
pub fn same_text(a: &str, b: &str) -> (r: bool)
    ensures
        r == (a@ == b@),
{
    let x = a.to_owned();
    let y = b.to_owned();
    x == y
}

/// The characters of a text, in order.
pub fn chars_of(s: &str) -> (r: Vec<char>)
    ensures
        r@ == s@,
{
    let n = s.unicode_len();
    let mut out: Vec<char> = Vec::new();
    let mut i: usize = 0;
    while i < n
        invariant
            n == s@.len(),
            i <= n,
            out@ == s@.take(i as int),
        decreases n - i,
    {
        out.push(s.get_char(i));
        i += 1;
        assert(out@ =~= s@.take(i as int));
    }
    assert(s@.take(n as int) =~= s@);
    out
}

/// The text made of the given characters.
pub fn string_of(chars: &Vec<char>) -> (r: String)
    ensures
        r@ == chars@,
{
    let mut out = String::new();
    let mut i: usize = 0;
    while i < chars.len()
        invariant
            i <= chars.len(),
            out@ == chars@.take(i as int),
        decreases chars.len() - i,
    {
        push_char(&mut out, chars[i]);
        i += 1;
        assert(out@ =~= chars@.take(i as int));
    }
    assert(chars@.take(i as int) =~= chars@);
    out
}

/// The character that writes a digit.
pub open spec fn digit_char(d: int) -> char {
    if d == 0 {
        '0'
    } else if d == 1 {
        '1'
    } else if d == 2 {
        '2'
    } else if d == 3 {
        '3'
    } else if d == 4 {
        '4'
    } else if d == 5 {
        '5'
    } else if d == 6 {
        '6'
    } else if d == 7 {
        '7'
    } else if d == 8 {
        '8'
    } else {
        '9'
    }
}

/// The digit that a character writes, if it writes one.
pub open spec fn digit_value(c: char) -> Option<int> {
    if c == '0' {
        Some(0)
    } else if c == '1' {
        Some(1)
    } else if c == '2' {
        Some(2)
    } else if c == '3' {
        Some(3)
    } else if c == '4' {
        Some(4)
    } else if c == '5' {
        Some(5)
    } else if c == '6' {
        Some(6)
    } else if c == '7' {
        Some(7)
    } else if c == '8' {
        Some(8)
    } else if c == '9' {
        Some(9)
    } else {
        None
    }
}

/// A natural number in decimal, without leading zeros.
pub open spec fn decimal_nat(n: nat) -> Seq<char>
    decreases n,
{
    if n < 10 {
        seq![digit_char(n as int)]
    } else {
        decimal_nat(n / 10).push(digit_char((n % 10) as int))
    }
}

/// An integer in decimal, with a minus sign in front where it is negative.
pub open spec fn decimal(i: int) -> Seq<char> {
    if i < 0 {
        seq!['-'] + decimal_nat((-i) as nat)
    } else {
        decimal_nat(i as nat)
    }
}

/// The number that a run of decimal digits writes. `None` for the empty
/// text and for one that holds anything but digits.
pub open spec fn digits_value(s: Seq<char>) -> Option<nat>
    decreases s.len(),
{
    if s.len() == 0 {
        None
    } else {
        match digit_value(s.last()) {
            None => None,
            Some(d) => if s.len() == 1 {
                Some(d as nat)
            } else {
                match digits_value(s.drop_last()) {
                    Some(v) => Some((v * 10 + d) as nat),
                    None => None,
                }
            },
        }
    }
}

/// The integer that a text writes: an optional sign, then at least one
/// decimal digit, and nothing else.
pub open spec fn parse_integer(s: Seq<char>) -> Option<int> {
    if s.len() > 0 && s[0] == '-' {
        match digits_value(s.skip(1)) {
            Some(v) => Some(-(v as int)),
            None => None,
        }
    } else if s.len() > 0 && s[0] == '+' {
        match digits_value(s.skip(1)) {
            Some(v) => Some(v as int),
            None => None,
        }
    } else {
        match digits_value(s) {
            Some(v) => Some(v as int),
            None => None,
        }
    }
}

/// The integer that a text writes, where it fits `i64`.
pub open spec fn parse_i64(s: Seq<char>) -> Option<i64> {
    match parse_integer(s) {
        Some(v) => if i64::MIN <= v <= i64::MAX {
            Some(v as i64)
        } else {
            None
        },
        None => None,
    }
}

/// Whether a text starts with another.
pub open spec fn has_prefix(s: Seq<char>, prefix: Seq<char>) -> bool {
    prefix.len() <= s.len() && s.take(prefix.len() as int) == prefix
}

fn digit(d: u8) -> (c: char)
    requires
        d < 10,
    ensures
        c == digit_char(d as int),
{
    if d == 0 {
        '0'
    } else if d == 1 {
        '1'
    } else if d == 2 {
        '2'
    } else if d == 3 {
        '3'
    } else if d == 4 {
        '4'
    } else if d == 5 {
        '5'
    } else if d == 6 {
        '6'
    } else if d == 7 {
        '7'
    } else if d == 8 {
        '8'
    } else {
        '9'
    }
}

fn value_of_digit(c: char) -> (r: Option<u8>)
    ensures
        r is Some <==> digit_value(c) is Some,
        r matches Some(d) ==> digit_value(c) == Some(d as int) && d < 10,
{
    if c == '0' {
        Some(0)
    } else if c == '1' {
        Some(1)
    } else if c == '2' {
        Some(2)
    } else if c == '3' {
        Some(3)
    } else if c == '4' {
        Some(4)
    } else if c == '5' {
        Some(5)
    } else if c == '6' {
        Some(6)
    } else if c == '7' {
        Some(7)
    } else if c == '8' {
        Some(8)
    } else if c == '9' {
        Some(9)
    } else {
        None
    }
}

/// Appends `n` in decimal.
pub fn push_decimal(out: &mut String, n: u64)
    ensures
        final(out)@ == old(out)@ + decimal_nat(n as nat),
    decreases n,
{
    if n >= 10 {
        push_decimal(out, n / 10);
    }
    let d: u8 = (n % 10) as u8;
    push_char(out, digit(d));
    assert(out@ =~= old(out)@ + decimal_nat(n as nat));
}

/// Appends `i` in decimal.
pub fn push_integer(out: &mut String, i: i64)
    ensures
        final(out)@ == old(out)@ + decimal(i as int),
{
    if i < 0 {
        push_char(out, '-');
        let magnitude: u64 = if i == i64::MIN {
            9223372036854775808u64
        } else {
            (-i) as u64
        };
        push_decimal(out, magnitude);
        assert(out@ =~= old(out)@ + decimal(i as int));
    } else {
        push_decimal(out, i as u64);
    }
}

/// Whether `s` starts with `prefix`.
pub fn starts_with(s: &Vec<char>, prefix: &Vec<char>) -> (r: bool)
    ensures
        r == has_prefix(s@, prefix@),
{
    if s.len() < prefix.len() {
        return false;
    }
    let ghost head = s@.take(prefix@.len() as int);
    let mut k: usize = 0;
    while k < prefix.len()
        invariant
            k <= prefix.len() <= s.len(),
            head == s@.take(prefix@.len() as int),
            forall|j: int| 0 <= j < k ==> head[j] == prefix@[j],
        decreases prefix.len() - k,
    {
        if s[k] != prefix[k] {
            assert(head[k as int] != prefix@[k as int]);
            return false;
        }
        k += 1;
    }
    assert(head =~= prefix@);
    true
}

/// The characters of `s` from position `n` on.
pub fn skip_chars(s: &Vec<char>, n: usize) -> (r: Vec<char>)
    requires
        n <= s.len(),
    ensures
        r@ == s@.skip(n as int),
{
    let mut out: Vec<char> = Vec::new();
    let mut i: usize = n;
    while i < s.len()
        invariant
            n <= i <= s.len(),
            out@ == s@.subrange(n as int, i as int),
        decreases s.len() - i,
    {
        out.push(s[i]);
        i += 1;
        assert(out@ =~= s@.subrange(n as int, i as int));
    }
    assert(s@.subrange(n as int, i as int) =~= s@.skip(n as int));
    out
}

/// Reads the integer that `s` writes, where it fits `i64`.
pub fn read_i64(s: &Vec<char>) -> (r: Option<i64>)
    ensures
        r == parse_i64(s@),
{
    if s.len() == 0 {
        return None;
    }
    let negative = s[0] == '-';
    let start: usize = if s[0] == '-' || s[0] == '+' {
        1
    } else {
        0
    };
    let ghost body = s@.skip(start as int);
    proof {
        if start == 0 {
            assert(body =~= s@);
        }
    }
    if start == s.len() {
        return None;
    }
    // 2^63: the greatest magnitude that any `i64` has.
    let limit: u64 = 9223372036854775808u64;
    let mut acc: u64 = 0;
    let mut over = false;
    let ghost mut value: nat = 0;
    let mut i: usize = start;
    while i < s.len()
        invariant
            start <= i <= s.len(),
            start < s.len(),
            body == s@.skip(start as int),
            start == 0 ==> body == s@,
            start == (if s@[0] == '-' || s@[0] == '+' {
                1int
            } else {
                0int
            }),
            limit == 9223372036854775808u64,
            i > start ==> digits_value(body.take(i - start)) == Some(value),
            i == start ==> value == 0 && acc == 0 && !over,
            over ==> value > limit,
            !over ==> value == acc && acc <= limit,
        decreases s.len() - i,
    {
        let ghost prefix = body.take(i - start + 1);
        proof {
            assert(prefix.last() == s@[i as int]);
            assert(prefix.drop_last() =~= body.take(i - start));
        }
        match value_of_digit(s[i]) {
            None => {
                proof {
                    assert(digits_value(prefix) is None);
                    lemma_digits_prefix_fails(body, i - start + 1);
                }
                return None;
            },
            Some(d) => {
                proof {
                    value = (value * 10 + d) as nat;
                    assert(digits_value(prefix) == Some(value));
                }
                if !over {
                    if acc > (limit - d as u64) / 10 {
                        over = true;
                    } else {
                        acc = acc * 10 + d as u64;
                    }
                }
            },
        }
        i += 1;
    }
    proof {
        assert(body.take(i - start) =~= body);
    }
    if over {
        None
    } else if negative {
        if acc == limit {
            Some(i64::MIN)
        } else {
            Some(-(acc as i64))
        }
    } else if acc == limit {
        None
    } else {
        Some(acc as i64)
    }
}

/// Where a prefix of a text is no run of digits, neither is the text.
pub proof fn lemma_digits_prefix_fails(s: Seq<char>, n: int)
    requires
        0 <= n <= s.len(),
        n > 0,
        digits_value(s.take(n)) is None,
    ensures
        digits_value(s) is None,
    decreases s.len() - n,
{
    if n < s.len() {
        assert(s.take(n + 1).drop_last() =~= s.take(n));
        lemma_digits_prefix_fails(s, n + 1);
    } else {
        assert(s.take(n) =~= s);
    }
}

/// A number in decimal is at least one character long, and every character
/// of it is a digit.
pub proof fn lemma_decimal_is_digits(n: nat)
    ensures
        decimal_nat(n).len() >= 1,
        forall|i: int| 0 <= i < decimal_nat(n).len() ==> digit_value(#[trigger] decimal_nat(n)[i])
            is Some,
    decreases n,
{
    if n >= 10 {
        lemma_decimal_is_digits(n / 10);
    }
}

/// Reading a number that was written in decimal gives the number back.
pub proof fn lemma_digits_round_trip(n: nat)
    ensures
        digits_value(decimal_nat(n)) == Some(n),
    decreases n,
{
    if n >= 10 {
        lemma_digits_round_trip(n / 10);
        lemma_decimal_is_digits(n / 10);
        let s = decimal_nat(n);
        assert(s.drop_last() =~= decimal_nat(n / 10));
        assert(s.last() == digit_char((n % 10) as int));
    }
}

/// Reading an integer that was written in decimal gives the integer back.
pub proof fn lemma_integer_round_trip(i: int)
    ensures
        parse_integer(decimal(i)) == Some(i),
{
    if i < 0 {
        let s = decimal(i);
        assert(s.skip(1) =~= decimal_nat((-i) as nat));
        lemma_digits_round_trip((-i) as nat);
    } else {
        lemma_decimal_is_digits(i as nat);
        lemma_digits_round_trip(i as nat);
        assert(digit_value(decimal_nat(i as nat)[0]) is Some);
    }
}

} // verus!
