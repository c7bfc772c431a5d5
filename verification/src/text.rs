//! Verified text utilities: character-level string equality, decimal
//! rendering and parsing of integers, the floating-point literal grammar,
//! and the default escaping transform used by the query renderer.
use vstd::prelude::*;

use vstd::string::StrSliceExecFns;

verus! {

/// Relies on Iterator::collect for String: the collected string holds
/// exactly the given characters, in order.
#[verifier::external_body]
pub fn chars_to_string(v: &Vec<char>) -> (r: String)
    ensures
        r@ == v@,
{
    v.iter().collect()
}

/// Relies on String::from_utf8: it succeeds exactly on a valid UTF-8
/// encoding and returns the characters it encodes.
#[verifier::external_body]
pub fn utf8_to_string(v: Vec<u8>) -> (r: Option<String>)
    ensures
        match r {
            Some(s) => vstd::utf8::valid_utf8(v@) && s@ == vstd::utf8::decode_utf8(v@),
            None => !vstd::utf8::valid_utf8(v@),
        },
{
    String::from_utf8(v).ok()
}

/// The characters of a string slice, in order.
pub fn str_chars(s: &str) -> (r: Vec<char>)
    ensures
        r@ == s@,
{
    let n = s.unicode_len();
    let mut out: Vec<char> = Vec::new();
    let mut idx: usize = 0;
    while idx < n
        invariant
            n == s@.len(),
            idx <= n,
            out@ =~= s@.subrange(0, idx as int),
        decreases n - idx,
    {
        out.push(s.get_char(idx));
        idx += 1;
    }
    proof {
        assert(out@ =~= s@);
    }
    out
}

/// Whether two string slices hold the same characters.
pub fn text_eq(a: &str, b: &str) -> (r: bool)
    ensures
        r == (a@ == b@),
{
    let na = a.unicode_len();
    let nb = b.unicode_len();
    if na != nb {
        return false;
    }
    let mut idx: usize = 0;
    while idx < na
        invariant
            na == a@.len(),
            na == b@.len(),
            idx <= na,
            forall|j: int| 0 <= j < idx ==> a@[j] == b@[j],
        decreases na - idx,
    {
        if a.get_char(idx) != b.get_char(idx) {
            return false;
        }
        idx += 1;
    }
    proof {
        assert(a@ =~= b@);
    }
    true
}

/// The character of a single decimal digit.
pub open spec fn digit_char(d: int) -> char {
    if d == 0 {
        '0'
    } else if d == 1 {
        '1'
    } else if d == 2 {
        '2'
    } else if d == 3 {
        '3'
    } else if d == 4 {
        '4'
    } else if d == 5 {
        '5'
    } else if d == 6 {
        '6'
    } else if d == 7 {
        '7'
    } else if d == 8 {
        '8'
    } else {
        '9'
    }
}

/// The decimal digits of a non-negative number, most significant first.
pub open spec fn dec_digits(n: int) -> Seq<char>
    decreases n,
{
    if n < 10 {
        seq![digit_char(n)]
    } else {
        dec_digits(n / 10).push(digit_char(n % 10))
    }
}

/// The decimal text of a signed number: a minus sign for a negative one,
/// then its magnitude's digits.
pub open spec fn i64_text(i: int) -> Seq<char> {
    if i < 0 {
        seq!['-'] + dec_digits(-i)
    } else {
        dec_digits(i)
    }
}

fn digit_to_char(d: u64) -> (c: char)
    requires
        d < 10,
    ensures
        c == digit_char(d as int),
{
    match d {
        0 => '0',
        1 => '1',
        2 => '2',
        3 => '3',
        4 => '4',
        5 => '5',
        6 => '6',
        7 => '7',
        8 => '8',
        _ => '9',
    }
}

/// Appends the decimal digits of a non-negative number.
pub fn push_u64_digits(n: u64, out: &mut Vec<char>)
    ensures
        final(out)@ == old(out)@ + dec_digits(n as int),
    decreases n,
{
    if n >= 10 {
        push_u64_digits(n / 10, out);
    }
    out.push(digit_to_char(n % 10));
    proof {
        assert(final(out)@ =~= old(out)@ + dec_digits(n as int));
    }
}

/// Appends the decimal text of a signed number.
pub fn push_i64_text(i: i64, out: &mut Vec<char>)
    ensures
        final(out)@ == old(out)@ + i64_text(i as int),
{
    if i < 0 {
        out.push('-');
        let mag: u64 = ((-(i as i128)) as u64);
        proof {
            assert(mag == -(i as int));
        }
        push_u64_digits(mag, out);
        proof {
            assert(final(out)@ =~= old(out)@ + i64_text(i as int));
        }
    } else {
        push_u64_digits(i as u64, out);
    }
}

/// The decimal text of a signed number.
pub fn i64_to_string(i: i64) -> (r: String)
    ensures
        r@ == i64_text(i as int),
{
    let mut out: Vec<char> = Vec::new();
    push_i64_text(i, &mut out);
    chars_to_string(&out)
}

/// Whether the character is a decimal digit.
pub open spec fn is_digit(c: char) -> bool {
    48 <= c as u32 <= 57
}

/// The value of a decimal digit character.
pub open spec fn digit_val(c: char) -> int {
    c as u32 - 48
}

/// Whether every character is a decimal digit.
pub open spec fn all_digits(s: Seq<char>) -> bool {
    forall|i: int| 0 <= i < s.len() ==> is_digit(#[trigger] s[i])
}

/// The value of a sequence of decimal digit characters.
pub open spec fn digits_val(s: Seq<char>) -> int
    decreases s,
{
    if s.len() == 0 {
        0
    } else {
        digits_val(s.drop_last()) * 10 + digit_val(s.last())
    }
}

/// A digit sequence's value is non-negative.
pub proof fn lemma_digits_val_nonneg(s: Seq<char>)
    requires
        all_digits(s),
    ensures
        digits_val(s) >= 0,
    decreases s.len(),
{
    if s.len() > 0 {
        assert(all_digits(s.drop_last())) by {
            assert(forall|i: int|
                0 <= i < s.len() - 1 ==> is_digit(#[trigger] s.drop_last()[i]) == is_digit(s[i]));
        }
        lemma_digits_val_nonneg(s.drop_last());
        assert(digits_val(s.drop_last()) * 10 >= 0) by (nonlinear_arith)
            requires
                digits_val(s.drop_last()) >= 0,
        ;
    }
}

/// A digit sequence's value is at least the value of any of its prefixes.
pub proof fn lemma_digits_val_prefix(s: Seq<char>, k: int)
    requires
        all_digits(s),
        0 <= k <= s.len(),
    ensures
        digits_val(s.subrange(0, k)) <= digits_val(s),
    decreases s.len() - k,
{
    if k < s.len() {
        lemma_digits_val_prefix(s, k + 1);
        let p = s.subrange(0, k);
        let q = s.subrange(0, k + 1);
        assert(q.drop_last() =~= p);
        assert(all_digits(p));
        lemma_digits_val_nonneg(p);
        assert(digits_val(q) == digits_val(p) * 10 + digit_val(q.last()));
        assert(digits_val(p) <= digits_val(p) * 10) by (nonlinear_arith)
            requires
                digits_val(p) >= 0,
        ;
    } else {
        assert(s.subrange(0, k) =~= s);
    }
}

/// The parse of signed decimal integer text: an optional sign, then at least
/// one digit, and a value within the 64-bit signed range.
pub open spec fn parse_i64_chars(s: Seq<char>) -> Option<i64> {
    let negative = s.len() > 0 && s[0] == '-';
    let body = if s.len() > 0 && (s[0] == '-' || s[0] == '+') {
        s.drop_first()
    } else {
        s
    };
    if body.len() == 0 || !all_digits(body) {
        None
    } else {
        let v = if negative {
            -digits_val(body)
        } else {
            digits_val(body)
        };
        if i64::MIN <= v <= i64::MAX {
            Some(v as i64)
        } else {
            None
        }
    }
}

/// Parses signed decimal integer text.
pub fn parse_i64_from_chars(v: &Vec<char>) -> (r: Option<i64>)
    ensures
        r == parse_i64_chars(v@),
{
    let n = v.len();
    let mut idx: usize = 0;
    let mut negative = false;
    if n > 0 && (v[0] == '-' || v[0] == '+') {
        negative = v[0] == '-';
        idx = 1;
    }
    let ghost start = idx as int;
    let ghost body = if v@.len() > 0 && (v@[0] == '-' || v@[0] == '+') {
        v@.drop_first()
    } else {
        v@
    };
    proof {
        assert(body =~= v@.subrange(start, n as int));
    }
    if idx == n {
        return None;
    }
    let mut acc: u64 = 0;
    while idx < n
        invariant
            n == v@.len(),
            0 <= start <= idx <= n,
            start < n,
            body == v@.subrange(start, n as int),
            body == (if v@.len() > 0 && (v@[0] == '-' || v@[0] == '+') {
                v@.drop_first()
            } else {
                v@
            }),
            negative == (v@.len() > 0 && v@[0] == '-'),
            all_digits(v@.subrange(start, idx as int)),
            acc as int == digits_val(v@.subrange(start, idx as int)),
        decreases n - idx,
    {
        let c = v[idx];
        let cv = c as u32;
        if !(48 <= cv && cv <= 57) {
            proof {
                assert(v@.subrange(start, n as int)[idx - start] == v@[idx as int]);
                assert(!is_digit(body[idx - start]));
                assert(!all_digits(body));
            }
            return None;
        }
        let d: u64 = ((cv - 48) as u64);
        let ghost prefix = v@.subrange(start, idx as int);
        let ghost prefix1 = v@.subrange(start, idx as int + 1);
        proof {
            assert(prefix1.drop_last() =~= prefix);
            assert(prefix1.last() == v@[idx as int]);
            assert(digits_val(prefix1) == digits_val(prefix) * 10 + d);
        }
        if acc > (u64::MAX - d) / 10 {
            // the value so far already exceeds the representable range
            proof {
                lemma_digits_val_nonneg(prefix);
                assert(acc as int * 10 + d > u64::MAX) by (nonlinear_arith)
                    requires
                        acc as int > (u64::MAX - d) / 10,
                        0 <= d < 10,
                ;
                if all_digits(body) {
                    assert(prefix1 =~= body.subrange(0, idx + 1 - start));
                    lemma_digits_val_prefix(body, idx + 1 - start);
                    assert(digits_val(body) >= digits_val(prefix1));
                    assert(digits_val(body) > i64::MAX);
                    assert(-digits_val(body) < i64::MIN);
                }
                assert(parse_i64_chars(v@) is None);
            }
            return None;
        }
        proof {
            assert(acc as int * 10 + d <= u64::MAX) by (nonlinear_arith)
                requires
                    acc as int <= (u64::MAX - d) / 10,
                    0 <= d < 10,
            ;
        }
        acc = acc * 10 + d;
        idx += 1;
    }
    proof {
        assert(v@.subrange(start, n as int) =~= body);
        assert(all_digits(body));
        assert(acc as int == digits_val(body));
    }
    if negative {
        if acc > 9223372036854775808u64 {
            return None;
        }
        let r: i64 = ((-(acc as i128)) as i64);
        Some(r)
    } else {
        if acc > i64::MAX as u64 {
            return None;
        }
        Some(acc as i64)
    }
}

/// The characters that a byte string spells, byte for byte.
pub open spec fn bytes_as_chars(s: Seq<u8>) -> Seq<char> {
    s.map_values(|b: u8| b as char)
}

/// The characters of a byte string, byte for byte.
pub fn bytes_chars(b: &[u8]) -> (r: Vec<char>)
    ensures
        r@ == bytes_as_chars(b@),
{
    let n = b.len();
    let mut out: Vec<char> = Vec::new();
    let mut idx: usize = 0;
    while idx < n
        invariant
            n == b@.len(),
            idx <= n,
            out@.len() == idx,
            forall|j: int| 0 <= j < idx ==> #[trigger] out@[j] == b@[j] as char,
        decreases n - idx,
    {
        out.push(b[idx] as char);
        idx += 1;
    }
    proof {
        assert(out@ =~= bytes_as_chars(b@));
    }
    out
}


/// The first position at or after `i` that does not hold a digit.
pub open spec fn skip_digits(s: Seq<char>, i: int) -> int
    decreases s.len() - i,
{
    if 0 <= i < s.len() && is_digit(s[i]) {
        skip_digits(s, i + 1)
    } else {
        i
    }
}

/// The position where a digit run ends: everything from `i` up to it is a
/// digit, and it is the end of the text or holds no digit.
pub proof fn lemma_skip_digits(s: Seq<char>, i: int, j: int)
    requires
        0 <= i <= j <= s.len(),
        forall|k: int| i <= k < j ==> is_digit(#[trigger] s[k]),
        j == s.len() || !is_digit(s[j]),
    ensures
        skip_digits(s, i) == j,
    decreases j - i,
{
    if i < j {
        lemma_skip_digits(s, i + 1, j);
    }
}

/// Basic bounds of a digit run's end.
pub proof fn lemma_skip_digits_bounds(s: Seq<char>, i: int)
    requires
        0 <= i <= s.len(),
    ensures
        i <= skip_digits(s, i) <= s.len(),
        forall|k: int| i <= k < skip_digits(s, i) ==> is_digit(#[trigger] s[k]),
        skip_digits(s, i) == s.len() || !is_digit(s[skip_digits(s, i)]),
    decreases s.len() - i,
{
    if i < s.len() && is_digit(s[i]) {
        lemma_skip_digits_bounds(s, i + 1);
    }
}

/// Whether the character equals a lowercase ASCII letter, ignoring case.
pub open spec fn ci_eq(c: char, lower: char) -> bool {
    c == lower || c as u32 + 32 == lower as u32
}

/// Whether the text from position `i` on spells the given lowercase word,
/// ignoring ASCII case, with nothing after it.
pub open spec fn ci_word_at(s: Seq<char>, i: int, w: Seq<char>) -> bool {
    s.len() - i == w.len() && forall|j: int|
        0 <= j < w.len() ==> ci_eq(#[trigger] s[i + j], w[j])
}

/// Whether the text from position `q` on is an empty or well-formed exponent
/// part: an exponent marker, an optional sign, and at least one digit,
/// reaching the end of the text.
pub open spec fn float_exp_ok_at(s: Seq<char>, q: int) -> bool {
    q == s.len() || ((s[q] == 'e' || s[q] == 'E') && {
        let r = if q + 1 < s.len() && (s[q + 1] == '+' || s[q + 1] == '-') {
            q + 2
        } else {
            q + 1
        };
        r < s.len() && skip_digits(s, r) == s.len()
    })
}

/// Whether the text from position `i` on is a floating-point number: digits
/// with an optional point and fraction, or a point with a fraction, either
/// followed by an optional exponent; at least one digit must be present
/// around the point.
pub open spec fn is_float_number_at(s: Seq<char>, i: int) -> bool {
    let p = skip_digits(s, i);
    if p < s.len() && s[p] == '.' {
        let q = skip_digits(s, p + 1);
        (p > i || q > p + 1) && float_exp_ok_at(s, q)
    } else {
        p > i && float_exp_ok_at(s, p)
    }
}

/// Whether the text from position `i` on is one of the special words for
/// infinities and the not-a-number value, ignoring ASCII case.
pub open spec fn is_special_float_word_at(s: Seq<char>, i: int) -> bool {
    ||| ci_word_at(s, i, seq!['i', 'n', 'f'])
    ||| ci_word_at(s, i, seq!['i', 'n', 'f', 'i', 'n', 'i', 't', 'y'])
    ||| ci_word_at(s, i, seq!['n', 'a', 'n'])
}

/// Whether the text is a well-formed floating-point literal: an optional
/// sign, then a number or one of the special words.
pub open spec fn is_float_literal(s: Seq<char>) -> bool {
    let i: int = if s.len() > 0 && (s[0] == '+' || s[0] == '-') {
        1
    } else {
        0
    };
    is_special_float_word_at(s, i) || is_float_number_at(s, i)
}

fn skip_digits_exec(v: &Vec<char>, from: usize) -> (r: usize)
    requires
        from <= v@.len(),
    ensures
        r == skip_digits(v@, from as int),
        from <= r <= v@.len(),
    decreases v@.len() - from,
{
    let n = v.len();
    let mut idx: usize = from;
    while idx < n
        invariant
            n == v@.len(),
            from <= idx <= n,
            forall|k: int| from <= k < idx ==> is_digit(#[trigger] v@[k]),
        decreases n - idx,
    {
        let cv = v[idx] as u32;
        if !(48 <= cv && cv <= 57) {
            proof {
                lemma_skip_digits(v@, from as int, idx as int);
            }
            return idx;
        }
        idx += 1;
    }
    proof {
        lemma_skip_digits(v@, from as int, n as int);
    }
    n
}

fn ci_word_exec(v: &Vec<char>, from: usize, w: &[char]) -> (r: bool)
    requires
        from <= v@.len(),
    ensures
        r == ci_word_at(v@, from as int, w@),
{
    let n = v.len();
    let m = w.len();
    if n - from != m {
        return false;
    }
    let mut idx: usize = 0;
    while idx < m
        invariant
            n == v@.len(),
            m == w@.len(),
            from + m == n,
            idx <= m,
            forall|j: int| 0 <= j < idx ==> ci_eq(#[trigger] v@[from + j], w@[j]),
        decreases m - idx,
    {
        let c = v[from + idx];
        let lower = w[idx];
        let same = c == lower || ((c as u32) as u64) + 32 == ((lower as u32) as u64);
        if !same {
            proof {
                assert(!ci_eq(v@[from + idx], w@[idx as int]));
            }
            return false;
        }
        idx += 1;
    }
    true
}

/// Whether the characters spell a well-formed floating-point literal.
pub fn check_float_literal(v: &Vec<char>) -> (r: bool)
    ensures
        r == is_float_literal(v@),
{
    let n = v.len();
    let mut start: usize = 0;
    if n > 0 && (v[0] == '+' || v[0] == '-') {
        start = 1;
    }
    if ci_word_exec(v, start, &['i', 'n', 'f']) {
        proof {
            assert(['i', 'n', 'f']@ =~= seq!['i', 'n', 'f']);
        }
        return true;
    }
    if ci_word_exec(v, start, &['i', 'n', 'f', 'i', 'n', 'i', 't', 'y']) {
        proof {
            assert(['i', 'n', 'f', 'i', 'n', 'i', 't', 'y']@
                =~= seq!['i', 'n', 'f', 'i', 'n', 'i', 't', 'y']);
        }
        return true;
    }
    if ci_word_exec(v, start, &['n', 'a', 'n']) {
        proof {
            assert(['n', 'a', 'n']@ =~= seq!['n', 'a', 'n']);
        }
        return true;
    }
    proof {
        assert(['i', 'n', 'f']@ =~= seq!['i', 'n', 'f']);
        assert(['i', 'n', 'f', 'i', 'n', 'i', 't', 'y']@
            =~= seq!['i', 'n', 'f', 'i', 'n', 'i', 't', 'y']);
        assert(['n', 'a', 'n']@ =~= seq!['n', 'a', 'n']);
    }
    let p = skip_digits_exec(v, start);
    if p < n && v[p] == '.' {
        let q = skip_digits_exec(v, p + 1);
        if !(p > start || q > p + 1) {
            return false;
        }
        check_float_exp(v, q)
    } else {
        if !(p > start) {
            return false;
        }
        check_float_exp(v, p)
    }
}

fn check_float_exp(v: &Vec<char>, q: usize) -> (r: bool)
    requires
        q <= v@.len(),
    ensures
        r == float_exp_ok_at(v@, q as int),
{
    let n = v.len();
    if q == n {
        return true;
    }
    let c = v[q];
    if !(c == 'e' || c == 'E') {
        return false;
    }
    let mut rpos: usize = q + 1;
    if rpos < n && (v[rpos] == '+' || v[rpos] == '-') {
        rpos = rpos + 1;
    }
    if rpos >= n {
        return false;
    }
    let e = skip_digits_exec(v, rpos);
    e == n
}

/// The character of a single hexadecimal digit, in lower case.
pub open spec fn hex_digit_char(d: int) -> char {
    if d < 10 {
        digit_char(d)
    } else if d == 10 {
        'a'
    } else if d == 11 {
        'b'
    } else if d == 12 {
        'c'
    } else if d == 13 {
        'd'
    } else if d == 14 {
        'e'
    } else {
        'f'
    }
}

/// The hexadecimal digits of a non-negative number, most significant first,
/// without leading zeros.
pub open spec fn hex_digits(n: int) -> Seq<char>
    decreases n,
{
    if n < 16 {
        seq![hex_digit_char(n)]
    } else {
        hex_digits(n / 16).push(hex_digit_char(n % 16))
    }
}

/// How the default escaping transform writes one character: the named
/// escapes for tabs, line breaks, quotes and the backslash; printable ASCII
/// unchanged; everything else as a braced hexadecimal code point escape.
pub open spec fn escape_char(c: char) -> Seq<char> {
    if c == '\t' {
        seq!['\\', 't']
    } else if c == '\r' {
        seq!['\\', 'r']
    } else if c == '\n' {
        seq!['\\', 'n']
    } else if c == '\\' {
        seq!['\\', '\\']
    } else if c == '\'' {
        seq!['\\', '\'']
    } else if c == '"' {
        seq!['\\', '"']
    } else if 32 <= c as u32 <= 126 {
        seq![c]
    } else {
        seq!['\\', 'u', '{'] + hex_digits(c as u32 as int) + seq!['}']
    }
}

/// The default escaping transform of a text, character for character.
pub open spec fn escape_text(s: Seq<char>) -> Seq<char>
    decreases s,
{
    if s.len() == 0 {
        Seq::empty()
    } else {
        escape_text(s.drop_last()) + escape_char(s.last())
    }
}

fn hex_digit_to_char(d: u32) -> (c: char)
    requires
        d < 16,
    ensures
        c == hex_digit_char(d as int),
{
    match d {
        0 => '0',
        1 => '1',
        2 => '2',
        3 => '3',
        4 => '4',
        5 => '5',
        6 => '6',
        7 => '7',
        8 => '8',
        9 => '9',
        10 => 'a',
        11 => 'b',
        12 => 'c',
        13 => 'd',
        14 => 'e',
        _ => 'f',
    }
}

fn push_hex_digits(n: u32, out: &mut Vec<char>)
    ensures
        final(out)@ == old(out)@ + hex_digits(n as int),
    decreases n,
{
    if n >= 16 {
        push_hex_digits(n / 16, out);
    }
    out.push(hex_digit_to_char(n % 16));
    proof {
        assert(final(out)@ =~= old(out)@ + hex_digits(n as int));
    }
}

/// Appends one character's default escape.
pub fn push_escaped_char(c: char, out: &mut Vec<char>)
    ensures
        final(out)@ == old(out)@ + escape_char(c),
{
    if c == '\t' {
        out.push('\\');
        out.push('t');
    } else if c == '\r' {
        out.push('\\');
        out.push('r');
    } else if c == '\n' {
        out.push('\\');
        out.push('n');
    } else if c == '\\' {
        out.push('\\');
        out.push('\\');
    } else if c == '\'' {
        out.push('\\');
        out.push('\'');
    } else if c == '"' {
        out.push('\\');
        out.push('"');
    } else {
        let cv = c as u32;
        if 32 <= cv && cv <= 126 {
            out.push(c);
        } else {
            out.push('\\');
            out.push('u');
            out.push('{');
            push_hex_digits(cv, out);
            out.push('}');
        }
    }
    proof {
        assert(final(out)@ =~= old(out)@ + escape_char(c));
    }
}

/// Appends a text's default escape, character for character.
pub fn push_escaped_text(s: &str, out: &mut Vec<char>)
    ensures
        final(out)@ == old(out)@ + escape_text(s@),
{
    let chars = str_chars(s);
    let n = chars.len();
    let mut idx: usize = 0;
    while idx < n
        invariant
            chars@ == s@,
            n == chars@.len(),
            idx <= n,
            out@ == old(out)@ + escape_text(s@.subrange(0, idx as int)),
        decreases n - idx,
    {
        push_escaped_char(chars[idx], out);
        proof {
            let pre = s@.subrange(0, idx as int);
            let pre1 = s@.subrange(0, idx as int + 1);
            assert(pre1.drop_last() =~= pre);
            assert(pre1.last() == s@[idx as int]);
            assert(out@ =~= old(out)@ + escape_text(pre1));
        }
        idx += 1;
    }
    proof {
        assert(s@.subrange(0, n as int) =~= s@);
    }
}

} // verus!
