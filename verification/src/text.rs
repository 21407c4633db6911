//! Building strings.
use vstd::prelude::*;

verus! {

/// `a` followed by `b`.
pub fn concat(a: &str, b: &str) -> (r: String)
    ensures
        r@ == a@ + b@,
{
    let mut r = String::from_str(a);
    r.append(b);
    r
}

/// The url of a local file.
pub open spec fn file_url_of(path: Seq<char>) -> Seq<char> {
    seq!['f', 'i', 'l', 'e', ':', '/', '/'] + path
}

/// `file://` followed by the path.
pub fn file_url(path: &str) -> (r: String)
    ensures
        r@ == file_url_of(path@),
{
    let r = concat("file://", path);
    proof {
        reveal_strlit("file://");
        assert("file://"@ =~= seq!['f', 'i', 'l', 'e', ':', '/', '/']);
    }
    r
}

/// A copy of an optional string.
pub fn clone_text(s: &Option<String>) -> (r: Option<String>)
    ensures
        r == *s,
{
    match s {
        Some(t) => Some(t.clone()),
        None => None,
    }
}

} // verus!

verus! {

/// Calls `String::push`, which its documentation says appends the character.
#[verifier::external_body]
pub(crate) fn push_char(s: &mut String, c: char)
    ensures
        final(s)@ == old(s)@.push(c),
{
    s.push(c);
}

/// The character of a decimal digit.
pub open spec fn digit_char(d: nat) -> char {
    if d == 0 {
        '0'
    } else if d == 1 {
        '1'
    } else if d == 2 {
        '2'
    } else if d == 3 {
        '3'
    } else if d == 4 {
        '4'
    } else if d == 5 {
        '5'
    } else if d == 6 {
        '6'
    } else if d == 7 {
        '7'
    } else if d == 8 {
        '8'
    } else {
        '9'
    }
}

fn digit(d: u64) -> (c: char)
    requires
        d < 10,
    ensures
        c == digit_char(d as nat),
{
    if d == 0 {
        '0'
    } else if d == 1 {
        '1'
    } else if d == 2 {
        '2'
    } else if d == 3 {
        '3'
    } else if d == 4 {
        '4'
    } else if d == 5 {
        '5'
    } else if d == 6 {
        '6'
    } else if d == 7 {
        '7'
    } else if d == 8 {
        '8'
    } else {
        '9'
    }
}

/// The decimal digits of `n`, without leading zeros (`0` for zero).
pub open spec fn decimal_of(n: nat) -> Seq<char>
    decreases n,
{
    if n < 10 {
        seq![digit_char(n)]
    } else {
        decimal_of(n / 10).push(digit_char(n % 10))
    }
}

/// `n` written in decimal, as `Display` writes it.
pub fn decimal(n: u64) -> (s: String)
    ensures
        s@ == decimal_of(n as nat),
{
    // the digits, last first
    let mut digits: Vec<char> = Vec::new();
    let mut rest = n;
    let ghost mut done: nat = 0;
    proof {
        assert(decimal_of(n as nat) =~= decimal_of(rest as nat) + digits@.reverse());
    }
    while rest >= 10
        invariant
            rest <= n,
            digits@.len() == done,
            decimal_of(n as nat) == decimal_of(rest as nat) + digits@.reverse(),
        decreases rest,
    {
        let d = rest % 10;
        proof {
            assert(decimal_of(rest as nat) == decimal_of((rest / 10) as nat).push(digit_char(d as nat)));
            let c = digit_char(d as nat);
            assert(digits@.push(c).reverse() =~= seq![c] + digits@.reverse());
        }
        digits.push(digit(d));
        rest = rest / 10;
        proof {
            done = done + 1;
        }
    }
    let mut s = String::new();
    push_char(&mut s, digit(rest));
    let mut i = digits.len();
    proof {
        assert(decimal_of(rest as nat) =~= seq![digit_char(rest as nat)]);
        assert(digits@.reverse().subrange(0, 0) =~= Seq::<char>::empty());
    }
    while i > 0
        invariant
            i <= digits@.len(),
            s@ == decimal_of(rest as nat) + digits@.reverse().subrange(0, (digits@.len() - i) as int),
            decimal_of(n as nat) == decimal_of(rest as nat) + digits@.reverse(),
        decreases i,
    {
        i = i - 1;
        proof {
            let k = (digits@.len() - i) as int;
            assert(digits@.reverse().subrange(0, k) =~= digits@.reverse().subrange(0, k - 1).push(digits@[i as int]));
        }
        push_char(&mut s, digits[i]);
    }
    proof {
        assert(digits@.reverse().subrange(0, digits@.len() as int) =~= digits@.reverse());
    }
    s
}

/// `n` written in decimal with a leading `-` when negative, as `Display` writes it.
pub open spec fn signed_decimal_of(n: int) -> Seq<char> {
    if n < 0 {
        seq!['-'] + decimal_of((-n) as nat)
    } else {
        decimal_of(n as nat)
    }
}

pub fn signed_decimal(n: i32) -> (s: String)
    ensures
        s@ == signed_decimal_of(n as int),
{
    if n < 0 {
        let magnitude: u64 = (-(n as i64)) as u64;
        let digits = decimal(magnitude);
        let mut s = String::new();
        push_char(&mut s, '-');
        s.append(digits.as_str());
        proof {
            assert(s@ =~= seq!['-'] + decimal_of((-n) as nat));
        }
        s
    } else {
        decimal(n as u64)
    }
}

/// Whether every character is a decimal digit, and there is at least one.
pub open spec fn all_digits(s: Seq<char>) -> bool {
    s.len() > 0 && forall|i: int| 0 <= i < s.len() ==> '0' <= #[trigger] s[i] <= '9'
}

/// The value of a string of decimal digits.
pub open spec fn digits_value(s: Seq<char>) -> nat
    decreases s.len(),
{
    if s.len() == 0 {
        0
    } else {
        digits_value(s.drop_last()) * 10 + ((s.last() as int) - ('0' as int)) as nat
    }
}

/// The integer that `s` writes: an optional `+` or `-` sign, then one or more decimal
/// digits and nothing else; the form that `str::parse` accepts for integers.
pub open spec fn integer_of(s: Seq<char>) -> Option<int> {
    if s.len() > 0 && (s[0] == '+' || s[0] == '-') {
        if all_digits(s.drop_first()) {
            if s[0] == '-' {
                Some(-(digits_value(s.drop_first()) as int))
            } else {
                Some(digits_value(s.drop_first()) as int)
            }
        } else {
            None
        }
    } else if all_digits(s) {
        Some(digits_value(s) as int)
    } else {
        None
    }
}

/// The `i32` that `s` writes, if it writes one that fits (`s.parse::<i32>().ok()`).
pub open spec fn i32_of(s: Seq<char>) -> Option<i32> {
    match integer_of(s) {
        Some(v) => if i32::MIN <= v <= i32::MAX {
            Some(v as i32)
        } else {
            None
        },
        None => None,
    }
}

proof fn lemma_digits_value_grows(s: Seq<char>, k: int)
    requires
        0 <= k <= s.len(),
        forall|i: int| 0 <= i < s.len() ==> '0' <= #[trigger] s[i] <= '9',
    ensures
        digits_value(s.subrange(0, k)) <= digits_value(s),
    decreases s.len() - k,
{
    if k < s.len() {
        lemma_digits_value_grows(s, k + 1);
        assert(s.subrange(0, k + 1).drop_last() =~= s.subrange(0, k));
    } else {
        assert(s.subrange(0, k) =~= s);
    }
}

/// Parses an `i32` as `str::parse::<i32>` does; none where it fails.
pub fn parse_i32(s: &str) -> (r: Option<i32>)
    ensures
        r == i32_of(s@),
{
    let n = s.unicode_len();
    if n == 0 {
        return None;
    }
    let first = s.get_char(0);
    let negative = first == '-';
    let start: usize = if first == '+' || first == '-' {
        1
    } else {
        0
    };
    let ghost digits = s@.subrange(start as int, n as int);
    proof {
        if start == 1 {
            assert(digits =~= s@.drop_first());
        } else {
            assert(digits =~= s@);
        }
    }
    if start == n {
        return None;
    }
    let mut value: u64 = 0;
    let mut i = start;
    while i < n
        invariant
            start <= i <= n,
            n == s@.len(),
            0 < n,
            start == 0 || start == 1,
            start == 1 <==> (s@[0] == '+' || s@[0] == '-'),
            negative <==> s@[0] == '-',
            digits == s@.subrange(start as int, n as int),
            forall|j: int| start <= j < i ==> '0' <= #[trigger] s@[j] <= '9',
            value == digits_value(s@.subrange(start as int, i as int)),
            value <= 2147483648,
        decreases n - i,
    {
        let c = s.get_char(i);
        if c < '0' || c > '9' {
            proof {
                assert(digits[i - start] == c);
                assert(!all_digits(digits));
                if start == 1 {
                    assert(s@.drop_first() =~= digits);
                } else {
                    assert(s@ =~= digits);
                }
            }
            return None;
        }
        let d = (c as u64) - ('0' as u64);
        let next = value * 10 + d;
        proof {
            assert(s@.subrange(start as int, i + 1).drop_last() =~= s@.subrange(start as int, i as int));
        }
        if next > 2147483648 {
            // too large for an i32, whatever follows
            proof {
                let pre = s@.subrange(start as int, i + 1);
                assert(digits_value(pre) == next);
                if all_digits(digits) {
                    lemma_digits_value_grows(digits, (i + 1 - start) as int);
                    assert(digits.subrange(0, (i + 1 - start) as int) =~= pre);
                }
                if start == 1 {
                    assert(s@.drop_first() =~= digits);
                } else {
                    assert(s@ =~= digits);
                }
            }
            return None;
        }
        value = next;
        i = i + 1;
    }
    proof {
        assert forall|j: int| 0 <= j < digits.len() implies '0' <= #[trigger] digits[j] <= '9' by {
            assert(digits[j] == s@[start + j]);
        }
        assert(s@.subrange(start as int, n as int) =~= digits);
    }
    if negative {
        Some((-(value as i64)) as i32)
    } else if value <= 2147483647 {
        Some(value as i32)
    } else {
        None
    }
}


/// Whether two texts are equal, character by character.
pub fn same_text(a: &str, b: &str) -> (r: bool)
    ensures
        r == (a@ == b@),
{
    let n = a.unicode_len();
    if n != b.unicode_len() {
        return false;
    }
    let mut i: usize = 0;
    while i < n
        invariant
            n == a@.len(),
            n == b@.len(),
            i <= n,
            forall|j: int| 0 <= j < i ==> a@[j] == b@[j],
        decreases n - i,
    {
        if a.get_char(i) != b.get_char(i) {
            return false;
        }
        i = i + 1;
    }
    proof {
        assert(a@ =~= b@);
    }
    true
}

} // verus!
