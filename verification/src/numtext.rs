use vstd::prelude::*;

verus! {

/// A decimal digit.
pub open spec fn is_digit(c: char) -> bool {
    '0' <= c && c <= '9'
}

/// The first position at or after `i` whose character is not a digit
/// (or the end of the text).
pub open spec fn digits_end(s: Seq<char>, i: int) -> int
    recommends
        0 <= i <= s.len(),
    decreases s.len() - i,
{
    if i < s.len() && is_digit(s[i]) {
        digits_end(s, i + 1)
    } else {
        i
    }
}

/// What may follow the integer part of a number: nothing, a fraction
/// followed by an optional exponent, or an exponent alone.
pub open spec fn frac_and_exp(s: Seq<char>, j: int) -> bool {
    if j < s.len() && s[j] == '.' {
        let k = digits_end(s, j + 1);
        k > j + 1 && exp_part(s, k)
    } else {
        exp_part(s, j)
    }
}

/// What may stand from position `k` to the end: nothing, or an exponent
/// marker, an optional sign, and at least one digit reaching the end.
pub open spec fn exp_part(s: Seq<char>, k: int) -> bool {
    if k == s.len() {
        true
    } else if s[k] == 'e' || s[k] == 'E' {
        let m = if k + 1 < s.len() && (s[k + 1] == '+' || s[k + 1] == '-') {
            k + 2
        } else {
            k + 1
        };
        digits_end(s, m) == s.len() && m < s.len()
    } else {
        false
    }
}

/// The JSON number grammar: an optional minus sign, an integer part with no
/// leading zero, an optional fraction, and an optional exponent. The grammar
/// is deterministic, so the spec reads the text left to right.
pub open spec fn is_json_number(s: Seq<char>) -> bool {
    let b: int = if s.len() > 0 && s[0] == '-' {
        1
    } else {
        0
    };
    let j = digits_end(s, b);
    &&& j > b
    &&& (j - b > 1 ==> s[b] != '0')
    &&& frac_and_exp(s, j)
}

/// Scans digits from `from` and returns the first non-digit position.
fn scan_digits(s: &str, from: usize) -> (r: usize)
    requires
        from <= s@.len(),
    ensures
        r == digits_end(s@, from as int),
        from <= r <= s@.len(),
{
    let n = s.unicode_len();
    let mut i: usize = from;
    while i < n && '0' <= s.get_char(i) && s.get_char(i) <= '9'
        invariant
            from <= i <= n,
            n == s@.len(),
            digits_end(s@, from as int) == digits_end(s@, i as int),
        decreases n - i,
    {
        i = i + 1;
    }
    i
}

/// Decides whether a text is a JSON number, exactly per `is_json_number`.
pub fn check_json_number(s: &str) -> (b: bool)
    ensures
        b == is_json_number(s@),
{
    let n = s.unicode_len();
    let start: usize = if n > 0 && s.get_char(0) == '-' {
        1
    } else {
        0
    };
    let j = scan_digits(s, start);
    if j == start {
        return false;
    }
    if j - start > 1 && s.get_char(start) == '0' {
        return false;
    }
    let k: usize = if j < n && s.get_char(j) == '.' {
        let k2 = scan_digits(s, j + 1);
        if k2 == j + 1 {
            return false;
        }
        k2
    } else {
        j
    };
    if k == n {
        return true;
    }
    let c = s.get_char(k);
    if !(c == 'e' || c == 'E') {
        return false;
    }
    let m: usize = if k + 1 < n && (s.get_char(k + 1) == '+' || s.get_char(k + 1) == '-') {
        k + 2
    } else {
        k + 1
    };
    let e = scan_digits(s, m);
    e > m && e == n
}

} // verus!
