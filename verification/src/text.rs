//! Character-level helpers shared by the request builders and the decoders.
//!
//! Every function here works on the characters of a string (its view as a
//! `Seq<char>`), never on its bytes.

use vstd::prelude::*;
use vstd::string::*;

verus! {

/// `String::push` appends one character to the end of the string.
pub assume_specification[ String::push ](s: &mut String, c: char)
    ensures
        final(s)@ == old(s)@.push(c),
;

/// The characters of `s`, in order.
pub fn chars_of(s: &str) -> (r: Vec<char>)
    ensures
        r@ == s@,
{
    let mut out: Vec<char> = Vec::new();
    for c in it: s.chars()
        invariant
            it.seq() == s@,
            out@ =~= s@.take(it.index() as int),
    {
        out.push(c);
    }
    out
}

/// The string made of `v[from..to]`.
pub(crate) fn string_of(v: &Vec<char>, from: usize, to: usize) -> (r: String)
    requires
        from <= to <= v.len(),
    ensures
        r@ == v@.subrange(from as int, to as int),
{
    let mut out = String::new();
    let mut i: usize = from;
    while i < to
        invariant
            from <= i <= to <= v.len(),
            out@ =~= v@.subrange(from as int, i as int),
        decreases to - i,
    {
        out.push(v[i]);
        i += 1;
    }
    out
}

/// Whether two strings hold the same characters.
pub fn text_eq(a: &str, b: &str) -> (r: bool)
    ensures
        r == (a@ == b@),
{
    let x = chars_of(a);
    let y = chars_of(b);
    if x.len() != y.len() {
        return false;
    }
    let mut i: usize = 0;
    while i < x.len()
        invariant
            i <= x.len(),
            x.len() == y.len(),
            x@ == a@,
            y@ == b@,
            forall|k: int| 0 <= k < i ==> x@[k] == y@[k],
        decreases x.len() - i,
    {
        if x[i] != y[i] {
            return false;
        }
        i += 1;
    }
    assert(x@ =~= y@);
    true
}


/// The decimal digit that stands for `d`; `'0'` outside `0..=9`.
pub open spec fn digit_char(d: int) -> char {
    if d == 1 {
        '1'
    } else if d == 2 {
        '2'
    } else if d == 3 {
        '3'
    } else if d == 4 {
        '4'
    } else if d == 5 {
        '5'
    } else if d == 6 {
        '6'
    } else if d == 7 {
        '7'
    } else if d == 8 {
        '8'
    } else if d == 9 {
        '9'
    } else {
        '0'
    }
}

/// The decimal digits of `n`, most significant first, without leading zeros.
pub open spec fn natural_digits(n: nat) -> Seq<char>
    decreases n,
{
    if n < 10 {
        seq![digit_char(n as int)]
    } else {
        natural_digits(n / 10).push(digit_char((n % 10) as int))
    }
}

/// The decimal notation of `n`: a minus sign for negative numbers, then the digits.
pub open spec fn decimal(n: int) -> Seq<char> {
    if n < 0 {
        seq!['-'] + natural_digits((-n) as nat)
    } else {
        natural_digits(n as nat)
    }
}

fn digit_of(d: u64) -> (c: char)
    requires
        d < 10,
    ensures
        c == digit_char(d as int),
{
    if d == 1 {
        '1'
    } else if d == 2 {
        '2'
    } else if d == 3 {
        '3'
    } else if d == 4 {
        '4'
    } else if d == 5 {
        '5'
    } else if d == 6 {
        '6'
    } else if d == 7 {
        '7'
    } else if d == 8 {
        '8'
    } else if d == 9 {
        '9'
    } else {
        '0'
    }
}

/// Appends the digits of `n` to `out`.
pub fn push_natural(out: &mut String, n: u64)
    ensures
        final(out)@ == old(out)@ + natural_digits(n as nat),
    decreases n,
{
    if n >= 10 {
        push_natural(out, n / 10);
    }
    out.push(digit_of(n % 10));
}

/// Appends the decimal notation of `n` to `out`.
pub fn push_decimal(out: &mut String, n: i64)
    ensures
        final(out)@ == old(out)@ + decimal(n as int),
{
    if n < 0 {
        out.push('-');
        let magnitude: u64 = if n == i64::MIN {
            9223372036854775808u64
        } else {
            (-n) as u64
        };
        push_natural(out, magnitude);
    } else {
        push_natural(out, n as u64);
    }
}

/// Whether `c` is one of the ten decimal digits.
pub open spec fn is_digit(c: char) -> bool {
    '0' <= c && c <= '9'
}

/// The number that the digit `c` stands for.
pub open spec fn digit_value(c: char) -> int {
    c as int - '0' as int
}

/// Whether `s` holds decimal digits only.
pub open spec fn all_digits(s: Seq<char>) -> bool {
    forall|i: int| 0 <= i < s.len() ==> is_digit(#[trigger] s[i])
}

/// The number written by the digit string `s`, read left to right.
pub open spec fn digits_value(s: Seq<char>) -> int
    decreases s.len(),
{
    if s.len() == 0 {
        0
    } else {
        digits_value(s.drop_last()) * 10 + digit_value(s.last())
    }
}

/// Whether `s` starts with a sign character.
pub open spec fn has_sign(s: Seq<char>) -> bool {
    s.len() > 0 && (s[0] == '-' || s[0] == '+')
}

/// The digits of `s`: what follows the optional sign.
pub open spec fn unsigned_part(s: Seq<char>) -> Seq<char> {
    if has_sign(s) {
        s.drop_first()
    } else {
        s
    }
}

/// The integer that `s` writes: an optional `+` or `-`, then one or more
/// decimal digits and nothing else. `None` for any other text.
pub open spec fn integer_of(s: Seq<char>) -> Option<int> {
    let body = unsigned_part(s);
    if body.len() == 0 || !all_digits(body) {
        None
    } else if s[0] == '-' {
        Some(-digits_value(body))
    } else {
        Some(digits_value(body))
    }
}

/// The `i64` that `s` writes; `None` where `s` is no integer or does not fit.
pub open spec fn i64_of(s: Seq<char>) -> Option<i64> {
    match integer_of(s) {
        Some(v) => if i64::MIN <= v <= i64::MAX {
            Some(v as i64)
        } else {
            None
        },
        None => None,
    }
}

/// A digit string is worth at least as much as each of its prefixes.
pub proof fn lemma_digits_value_grows(s: Seq<char>, n: int)
    requires
        all_digits(s),
        0 <= n <= s.len(),
    ensures
        0 <= digits_value(s.take(n)) <= digits_value(s),
    decreases s.len(),
{
    if n == s.len() {
        assert(s.take(n) =~= s);
        if s.len() > 0 {
            lemma_digits_value_grows(s.drop_last(), n - 1);
        }
    } else {
        assert(s.drop_last().take(n) =~= s.take(n));
        lemma_digits_value_grows(s.drop_last(), n);
    }
}

/// The digits of a number are digits, at least one, and spell the number.
pub proof fn lemma_natural_digits_spell_the_number(n: nat)
    ensures
        natural_digits(n).len() >= 1,
        all_digits(natural_digits(n)),
        digits_value(natural_digits(n)) == n,
    decreases n,
{
    let digits = natural_digits(n);
    if n < 10 {
        assert(digits_value(digits.drop_last()) == 0);
    } else {
        lemma_natural_digits_spell_the_number(n / 10);
        let front = natural_digits(n / 10);
        assert(digits.drop_last() =~= front);
    }
}

/// What is written for an integer reads back as that integer: the decimal
/// notation of every `i64` is accepted, and gives the number.
pub proof fn law_decimal_reads_back(n: i64)
    ensures
        i64_of(decimal(n as int)) == Some(n),
{
    let text = decimal(n as int);
    if n < 0 {
        let digits = natural_digits((-n) as nat);
        lemma_natural_digits_spell_the_number((-n) as nat);
        assert(unsigned_part(text) =~= digits);
    } else {
        lemma_natural_digits_spell_the_number(n as nat);
    }
}

fn value_of_digit(c: char) -> (d: Option<u64>)
    ensures
        d is Some <==> is_digit(c),
        d matches Some(v) ==> v == digit_value(c) && v < 10,
{
    if c == '0' {
        Some(0)
    } else if c == '1' {
        Some(1)
    } else if c == '2' {
        Some(2)
    } else if c == '3' {
        Some(3)
    } else if c == '4' {
        Some(4)
    } else if c == '5' {
        Some(5)
    } else if c == '6' {
        Some(6)
    } else if c == '7' {
        Some(7)
    } else if c == '8' {
        Some(8)
    } else if c == '9' {
        Some(9)
    } else {
        None
    }
}

/// Reads `s` as a decimal `i64`.
pub fn parse_i64(s: &str) -> (r: Option<i64>)
    ensures
        r == i64_of(s@),
{
    let chars = chars_of(s);
    let n = chars.len();
    let signed = n > 0 && (chars[0] == '-' || chars[0] == '+');
    let negative = n > 0 && chars[0] == '-';
    let start: usize = if signed { 1 } else { 0 };
    let ghost body = unsigned_part(s@);
    if start == n {
        return None;
    }
    let limit: u64 = if negative { 9223372036854775808u64 } else { 9223372036854775807u64 };
    let mut acc: u64 = 0;
    let mut i: usize = start;
    while i < n
        invariant
            start <= i <= n,
            n == chars.len(),
            chars@ == s@,
            body == s@.subrange(start as int, n as int),
            body == unsigned_part(s@),
            negative == (s@.len() > 0 && s@[0] == '-'),
            all_digits(body.take(i - start)),
            acc == digits_value(body.take(i - start)),
            acc <= limit,
            9223372036854775807u64 <= limit <= 9223372036854775808u64,
            negative ==> limit == 9223372036854775808u64,
            !negative ==> limit == 9223372036854775807u64,
        decreases n - i,
    {
        let ghost seen = body.take(i - start);
        let ghost next = body.take(i - start + 1);
        assert(next.drop_last() =~= seen);
        match value_of_digit(chars[i]) {
            None => {
                assert(!is_digit(body[i - start]));
                return None;
            },
            Some(d) => {
                if acc > (limit - d) / 10 {
                    proof {
                        if all_digits(body) {
                            lemma_digits_value_grows(body, i - start + 1);
                        }
                    }
                    return None;
                }
                acc = acc * 10 + d;
            },
        }
        i += 1;
    }
    assert(body.take(n - start) =~= body);
    if negative {
        if acc == 9223372036854775808u64 {
            Some(i64::MIN)
        } else {
            Some(-(acc as i64))
        }
    } else {
        Some(acc as i64)
    }
}

/// Whether `c` is white space in XML: a space, a tab, a line feed or a
/// carriage return.
pub open spec fn is_xml_space(c: char) -> bool {
    c == ' ' || c == '\t' || c == '\n' || c == '\r'
}

/// The number of white-space characters that `s` starts with.
pub open spec fn leading_spaces(s: Seq<char>) -> nat
    decreases s.len(),
{
    if s.len() > 0 && is_xml_space(s[0]) {
        1 + leading_spaces(s.drop_first())
    } else {
        0
    }
}

/// The number of white-space characters that `s` ends with.
pub open spec fn trailing_spaces(s: Seq<char>) -> nat
    decreases s.len(),
{
    if s.len() > 0 && is_xml_space(s.last()) {
        1 + trailing_spaces(s.drop_last())
    } else {
        0
    }
}

/// `s` without the white space that it starts with.
pub open spec fn trimmed_start(s: Seq<char>) -> Seq<char> {
    s.skip(leading_spaces(s) as int)
}

/// `s` without the white space that it ends with.
pub open spec fn trimmed_end(s: Seq<char>) -> Seq<char> {
    s.take(s.len() - trailing_spaces(s))
}

/// `s` trimmed at the sides asked for, the start first.
pub open spec fn trimmed(s: Seq<char>, at_start: bool, at_end: bool) -> Seq<char> {
    let a = if at_start {
        trimmed_start(s)
    } else {
        s
    };
    if at_end {
        trimmed_end(a)
    } else {
        a
    }
}

/// The white space at the start of `s` ends at the first character that is
/// none.
pub proof fn lemma_leading_spaces(s: Seq<char>, n: int)
    requires
        0 <= n <= s.len(),
        forall|k: int| 0 <= k < n ==> is_xml_space(#[trigger] s[k]),
        n == s.len() || !is_xml_space(s[n]),
    ensures
        leading_spaces(s) == n,
    decreases n,
{
    if n > 0 {
        let rest = s.drop_first();
        lemma_leading_spaces(rest, n - 1);
    }
}

/// The white space at the end of `s` starts after the last character that
/// is none.
pub proof fn lemma_trailing_spaces(s: Seq<char>, n: int)
    requires
        0 <= n <= s.len(),
        forall|k: int| s.len() - n <= k < s.len() ==> is_xml_space(#[trigger] s[k]),
        n == s.len() || !is_xml_space(s[s.len() - n - 1]),
    ensures
        trailing_spaces(s) == n,
    decreases n,
{
    if n > 0 {
        let rest = s.drop_last();
        lemma_trailing_spaces(rest, n - 1);
    }
}

fn is_space(c: char) -> (r: bool)
    ensures
        r == is_xml_space(c),
{
    c == ' ' || c == '\t' || c == '\n' || c == '\r'
}

/// `s` without the white space at the sides asked for.
pub fn trim(s: &str, at_start: bool, at_end: bool) -> (r: String)
    ensures
        r@ == trimmed(s@, at_start, at_end),
{
    let chars = chars_of(s);
    let n = chars.len();
    let mut lo: usize = 0;
    if at_start {
        while lo < n && is_space(chars[lo])
            invariant
                lo <= n,
                n == chars.len(),
                forall|k: int| 0 <= k < lo ==> is_xml_space(#[trigger] chars@[k]),
            decreases n - lo,
        {
            lo += 1;
        }
        proof {
            lemma_leading_spaces(chars@, lo as int);
        }
    }
    let ghost kept = chars@.skip(lo as int);
    assert(kept == if at_start { trimmed_start(s@) } else { s@ });
    let mut hi: usize = n;
    if at_end {
        while hi > lo && is_space(chars[hi - 1])
            invariant
                lo <= hi <= n,
                n == chars.len(),
                forall|k: int| hi <= k < n ==> is_xml_space(#[trigger] chars@[k]),
            decreases hi,
        {
            hi -= 1;
        }
        proof {
            lemma_trailing_spaces(kept, (n - hi) as int);
        }
    }
    string_of(&chars, lo, hi)
}

/// The number of decimal digits that stand in `s` from position `from` on.
pub open spec fn digit_run(s: Seq<char>, from: int) -> nat
    decreases s.len() - from,
{
    if 0 <= from < s.len() && is_digit(s[from]) {
        1 + digit_run(s, from + 1)
    } else {
        0
    }
}

/// 1 where a sign stands at position `at` of `s`, else 0.
pub open spec fn sign_width(s: Seq<char>, at: int) -> nat {
    if 0 <= at < s.len() && (s[at] == '+' || s[at] == '-') {
        1
    } else {
        0
    }
}

/// Whether `c` is the letter `small` or its capital `big`.
pub open spec fn is_letter(c: char, small: char, big: char) -> bool {
    c == small || c == big
}

/// Whether `s` is one of the words `inf`, `infinity` and `nan`, in any mix
/// of small and capital letters.
pub open spec fn is_special_number(s: Seq<char>) -> bool {
    ||| (s.len() == 3 && is_letter(s[0], 'i', 'I') && is_letter(s[1], 'n', 'N') && is_letter(
        s[2],
        'f',
        'F',
    ))
    ||| (s.len() == 3 && is_letter(s[0], 'n', 'N') && is_letter(s[1], 'a', 'A') && is_letter(
        s[2],
        'n',
        'N',
    ))
    ||| (s.len() == 8 && is_letter(s[0], 'i', 'I') && is_letter(s[1], 'n', 'N') && is_letter(
        s[2],
        'f',
        'F',
    ) && is_letter(s[3], 'i', 'I') && is_letter(s[4], 'n', 'N') && is_letter(s[5], 'i', 'I')
        && is_letter(s[6], 't', 'T') && is_letter(s[7], 'y', 'Y'))
}

/// Whether `s` writes a decimal number with digits before or after an
/// optional point, and an optional exponent: `e` or `E`, an optional sign
/// and one or more digits.
pub open spec fn is_plain_number(s: Seq<char>) -> bool {
    let whole = digit_run(s, 0) as int;
    let has_point = whole < s.len() && s[whole] == '.';
    let fraction_at: int = if has_point {
        whole + 1
    } else {
        whole
    };
    let fraction: int = if has_point {
        digit_run(s, fraction_at) as int
    } else {
        0
    };
    let exponent_at = fraction_at + fraction;
    let digits_at = exponent_at + 1 + sign_width(s, exponent_at + 1);
    &&& whole + fraction > 0
    &&& (exponent_at == s.len() || {
        &&& (s[exponent_at] == 'e' || s[exponent_at] == 'E')
        &&& digit_run(s, digits_at) > 0
        &&& digits_at + digit_run(s, digits_at) == s.len()
    })
}

/// Whether `s` writes a floating-point number in the notation that Rust
/// reads: an optional sign, then a decimal number or one of the special
/// words.
pub open spec fn is_number(s: Seq<char>) -> bool {
    let body = s.skip(sign_width(s, 0) as int);
    is_special_number(body) || is_plain_number(body)
}

/// A run of digits ends at the first character that is none.
pub proof fn lemma_digit_run(s: Seq<char>, from: int, n: int)
    requires
        0 <= from,
        0 <= n,
        from + n <= s.len(),
        forall|k: int| from <= k < from + n ==> is_digit(#[trigger] s[k]),
        from + n == s.len() || !is_digit(s[from + n]),
    ensures
        digit_run(s, from) == n,
    decreases n,
{
    if n > 0 {
        lemma_digit_run(s, from + 1, n - 1);
    }
}

fn is_digit_char(c: char) -> (r: bool)
    ensures
        r == is_digit(c),
{
    '0' <= c && c <= '9'
}

fn count_digits(chars: &Vec<char>, from: usize) -> (n: usize)
    requires
        from <= chars.len(),
    ensures
        n == digit_run(chars@, from as int),
        from + n <= chars.len(),
{
    let mut i: usize = from;
    while i < chars.len() && is_digit_char(chars[i])
        invariant
            from <= i <= chars.len(),
            forall|k: int| from <= k < i ==> is_digit(#[trigger] chars@[k]),
        decreases chars.len() - i,
    {
        i += 1;
    }
    proof {
        lemma_digit_run(chars@, from as int, (i - from) as int);
    }
    i - from
}

fn letter(c: char, small: char, big: char) -> (r: bool)
    ensures
        r == is_letter(c, small, big),
{
    c == small || c == big
}

fn spells_special_number(c: &Vec<char>) -> (r: bool)
    ensures
        r == is_special_number(c@),
{
    let n = c.len();
    if n == 3 {
        (letter(c[0], 'i', 'I') && letter(c[1], 'n', 'N') && letter(c[2], 'f', 'F')) || (letter(
            c[0],
            'n',
            'N',
        ) && letter(c[1], 'a', 'A') && letter(c[2], 'n', 'N'))
    } else if n == 8 {
        letter(c[0], 'i', 'I') && letter(c[1], 'n', 'N') && letter(c[2], 'f', 'F') && letter(
            c[3],
            'i',
            'I',
        ) && letter(c[4], 'n', 'N') && letter(c[5], 'i', 'I') && letter(c[6], 't', 'T') && letter(
            c[7],
            'y',
            'Y',
        )
    } else {
        false
    }
}

fn spells_plain_number(c: &Vec<char>) -> (r: bool)
    ensures
        r == is_plain_number(c@),
{
    let n = c.len();
    let whole = count_digits(c, 0);
    let has_point = whole < n && c[whole] == '.';
    let fraction_at: usize = if has_point { whole + 1 } else { whole };
    let fraction: usize = if has_point { count_digits(c, fraction_at) } else { 0 };
    if whole + fraction == 0 {
        return false;
    }
    let exponent_at: usize = fraction_at + fraction;
    if exponent_at == n {
        return true;
    }
    if !(c[exponent_at] == 'e' || c[exponent_at] == 'E') {
        return false;
    }
    let signed = exponent_at + 1 < n && (c[exponent_at + 1] == '+' || c[exponent_at + 1] == '-');
    let digits_at: usize = if signed { exponent_at + 2 } else { exponent_at + 1 };
    let digits = count_digits(c, digits_at);
    digits > 0 && digits_at + digits == n
}

/// Whether `s` writes a floating-point number.
pub fn looks_like_number(s: &str) -> (r: bool)
    ensures
        r == is_number(s@),
{
    let all = chars_of(s);
    let start: usize = if all.len() > 0 && (all[0] == '+' || all[0] == '-') {
        1
    } else {
        0
    };
    let mut c: Vec<char> = Vec::new();
    let mut k: usize = start;
    while k < all.len()
        invariant
            start <= k <= all.len(),
            c@ =~= all@.subrange(start as int, k as int),
        decreases all.len() - k,
    {
        c.push(all[k]);
        k += 1;
    }
    assert(c@ =~= s@.skip(sign_width(s@, 0) as int));
    spells_special_number(&c) || spells_plain_number(&c)
}

/// Whether `pattern` stands in `s` at position `at`.
pub open spec fn occurs_at(s: Seq<char>, pattern: Seq<char>, at: int) -> bool {
    0 <= at && at + pattern.len() <= s.len() && s.subrange(at, at + pattern.len()) == pattern
}

/// The first position at or after `from` where `pattern` stands in `s`.
pub open spec fn find_from(s: Seq<char>, pattern: Seq<char>, from: int) -> Option<int>
    decreases s.len() - from + 1,
{
    if from < 0 || from + pattern.len() > s.len() {
        None
    } else if occurs_at(s, pattern, from) {
        Some(from)
    } else {
        find_from(s, pattern, from + 1)
    }
}

/// Whether `pattern` stands somewhere in `s`.
pub open spec fn contains(s: Seq<char>, pattern: Seq<char>) -> bool {
    find_from(s, pattern, 0) is Some
}

/// The pieces of `s` between the characters `sep`, in order. There is
/// always at least one piece; two separators in a row enclose an empty one.
pub open spec fn split(s: Seq<char>, sep: char) -> Seq<Seq<char>>
    decreases s.len(),
{
    if s.len() == 0 {
        seq![Seq::empty()]
    } else {
        let before = split(s.drop_last(), sep);
        if s.last() == sep {
            before.push(Seq::empty())
        } else {
            before.update(before.len() - 1, before.last().push(s.last()))
        }
    }
}

/// `s` without `suffix` at its end; `s` itself where it does not end so.
pub open spec fn without_suffix(s: Seq<char>, suffix: Seq<char>) -> Seq<char> {
    if occurs_at(s, suffix, s.len() - suffix.len()) {
        s.take(s.len() - suffix.len())
    } else {
        s
    }
}

/// The views of `pieces`, in order.
pub open spec fn texts(pieces: Seq<String>) -> Seq<Seq<char>> {
    Seq::new(pieces.len(), |i: int| pieces[i]@)
}

fn matches_at(s: &Vec<char>, pattern: &Vec<char>, at: usize) -> (r: bool)
    requires
        at + pattern.len() <= s.len(),
    ensures
        r == occurs_at(s@, pattern@, at as int),
{
    let mut k: usize = 0;
    while k < pattern.len()
        invariant
            k <= pattern.len(),
            at + pattern.len() <= s.len(),
            forall|j: int| 0 <= j < k ==> s@[at + j] == pattern@[j],
        decreases pattern.len() - k,
    {
        if s[at + k] != pattern[k] {
            return false;
        }
        k += 1;
    }
    assert(s@.subrange(at as int, at + pattern.len()) =~= pattern@);
    true
}

/// The first position at or after `from` where `pattern` stands in `s`.
pub(crate) fn find(s: &Vec<char>, pattern: &Vec<char>, from: usize) -> (r: Option<usize>)
    ensures
        match r {
            Some(at) => find_from(s@, pattern@, from as int) == Some(at as int) && from <= at
                && at + pattern.len() <= s.len(),
            None => find_from(s@, pattern@, from as int) is None,
        },
{
    if pattern.len() > s.len() {
        return None;
    }
    if pattern.len() == 0 {
        if from <= s.len() {
            assert(s@.subrange(from as int, from as int) =~= pattern@);
            return Some(from);
        }
        return None;
    }
    let last = s.len() - pattern.len();
    let mut at: usize = from;
    while at <= last
        invariant
            from <= at,
            last == s.len() - pattern.len(),
            last < s.len(),
            find_from(s@, pattern@, from as int) == find_from(s@, pattern@, at as int),
        decreases last + 1 - at,
    {
        if matches_at(s, pattern, at) {
            return Some(at);
        }
        at += 1;
    }
    None
}

/// The pieces of `s[from..to]` between the characters `sep`.
pub(crate) fn split_range(s: &Vec<char>, from: usize, to: usize, sep: char) -> (pieces: Vec<String>)
    requires
        from <= to <= s.len(),
    ensures
        texts(pieces@) == split(s@.subrange(from as int, to as int), sep),
        pieces.len() >= 1,
{
    let mut pieces: Vec<String> = Vec::new();
    let mut current = String::new();
    let mut i: usize = from;
    while i < to
        invariant
            from <= i <= to <= s.len(),
            texts(pieces@).push(current@) == split(s@.subrange(from as int, i as int), sep),
        decreases to - i,
    {
        let ghost seen = s@.subrange(from as int, i as int);
        let ghost next = s@.subrange(from as int, i + 1);
        assert(next.drop_last() =~= seen);
        if s[i] == sep {
            pieces.push(current);
            current = String::new();
        } else {
            current.push(s[i]);
        }
        i += 1;
    }
    pieces.push(current);
    pieces
}

/// The length of `s[from..to]` once `suffix` is taken off its end.
pub(crate) fn end_without_suffix(s: &Vec<char>, from: usize, to: usize, suffix: &Vec<char>) -> (end: usize)
    requires
        from <= to <= s.len(),
    ensures
        from <= end <= to,
        s@.subrange(from as int, end as int) == without_suffix(
            s@.subrange(from as int, to as int),
            suffix@,
        ),
{
    let ghost whole = s@.subrange(from as int, to as int);
    if suffix.len() <= to - from && matches_at(s, suffix, to - suffix.len()) {
        to - suffix.len()
    } else {
        if suffix.len() <= to - from {
            assert(whole.subrange(whole.len() - suffix.len(), whole.len() as int) =~= s@.subrange(
                to - suffix.len(),
                to as int,
            ));
        }
        to
    }
}

} // verus!
