//! Verified utilities over character sequences: searching, decimal
//! numbers, percent-decoding, trimming and replacement.
//!
//! Executable code in this crate works on `Vec<char>` / `&[char]`
//! obtained from `&str` once at the API boundary; every function here
//! carries an exact contract over the corresponding `Seq<char>`.

use vstd::prelude::*;
use vstd::string::StrSliceExecFns;
use vstd::string::StringExecFns;

verus! {

/// A decimal digit.
pub open spec fn is_digit(c: char) -> bool {
    '0' <= c && c <= '9'
}

/// Numeric value of a decimal digit.
pub open spec fn digit_val(c: char) -> int {
    c as int - '0' as int
}

/// Value of a sequence of decimal digits, most significant first.
pub open spec fn dec_value(s: Seq<char>) -> int
    decreases s.len(),
{
    if s.len() == 0 {
        0
    } else {
        dec_value(s.drop_last()) * 10 + digit_val(s.last())
    }
}

/// The canonical decimal rendering of a natural number.
pub open spec fn dec_str(n: int) -> Seq<char>
    decreases n,
{
    if n <= 9 {
        seq![digit_char(if n < 0 { 0 } else { n })]
    } else {
        dec_str(n / 10) + seq![digit_char(n % 10)]
    }
}

/// The digit character for a value in `0 ..= 9`.
pub open spec fn digit_char(d: int) -> char {
    if d == 0 {
        '0'
    } else if d == 1 {
        '1'
    } else if d == 2 {
        '2'
    } else if d == 3 {
        '3'
    } else if d == 4 {
        '4'
    } else if d == 5 {
        '5'
    } else if d == 6 {
        '6'
    } else if d == 7 {
        '7'
    } else if d == 8 {
        '8'
    } else {
        '9'
    }
}

/// The digit character of a value, executably.
pub fn digit_to_char(d: u8) -> (r: char)
    requires
        d <= 9,
    ensures
        r == digit_char(d as int),
{
    match d {
        0 => '0',
        1 => '1',
        2 => '2',
        3 => '3',
        4 => '4',
        5 => '5',
        6 => '6',
        7 => '7',
        8 => '8',
        _ => '9',
    }
}

/// Render a `u64` in decimal; the result is exactly `dec_str(n)`.
pub fn u64_to_dec(n: u64) -> (r: String)
    ensures
        r@ == dec_str(n as int),
    decreases n,
{
    let d: u8 = (n % 10) as u8;
    let c: char = digit_to_char(d);
    if n <= 9 {
        let mut s = String::new();
        push_char(&mut s, c);
        proof {
            assert(s@ =~= dec_str(n as int));
        }
        s
    } else {
        let mut s = u64_to_dec(n / 10);
        push_char(&mut s, c);
        proof {
            assert(s@ =~= dec_str(n as int));
        }
        s
    }
}

/// Relies on `String::push`: appends exactly one character.
#[verifier::external_body]
pub fn push_char(s: &mut String, c: char)
    ensures
        final(s)@ == old(s)@.push(c),
{
    s.push(c);
}

/// The characters of `s`, in order.
pub fn to_chars(s: &str) -> (r: Vec<char>)
    ensures
        r@ == s@,
{
    let n = s.unicode_len();
    let mut r: Vec<char> = Vec::new();
    for i in 0..n
        invariant
            n == s@.len(),
            r@ =~= s@.take(i as int),
    {
        r.push(s.get_char(i));
        proof {
            assert(r@ =~= s@.take(i + 1));
        }
    }
    proof {
        assert(s@.take(n as int) =~= s@);
    }
    r
}

/// The substring `s[from .. to]` as an owned string.
pub fn chars_to_string(s: &[char], from: usize, to: usize) -> (r: String)
    requires
        from <= to <= s@.len(),
    ensures
        r@ == s@.subrange(from as int, to as int),
{
    let mut r = String::new();
    for i in from..to
        invariant
            from <= i <= to <= s@.len(),
            r@ =~= s@.subrange(from as int, i as int),
    {
        push_char(&mut r, s[i]);
        proof {
            assert(r@ =~= s@.subrange(from as int, i + 1));
        }
    }
    r
}

/// Index of the first occurrence of `c` at or after position `i`.
pub open spec fn find_from(s: Seq<char>, c: char, i: int) -> Option<int>
    decreases s.len() - i,
{
    if i < 0 || i >= s.len() {
        None
    } else if s[i] == c {
        Some(i)
    } else {
        find_from(s, c, i + 1)
    }
}

/// Index of the last occurrence of `c` at or before position `i`.
pub open spec fn rfind_to(s: Seq<char>, c: char, i: int) -> Option<int>
    decreases i + 1,
{
    if i < 0 || i >= s.len() {
        None
    } else if s[i] == c {
        Some(i)
    } else {
        rfind_to(s, c, i - 1)
    }
}

/// The last occurrence of `c` in `s`.
pub open spec fn rfind_char(s: Seq<char>, c: char) -> Option<int> {
    rfind_to(s, c, s.len() - 1)
}

/// Whether `c` occurs in `s` at all.
pub open spec fn has_char(s: Seq<char>, c: char) -> bool {
    find_from(s, c, 0) is Some
}

/// Searching from a position before any match skips ahead freely.
pub proof fn lemma_find_from_shift(s: Seq<char>, c: char, i: int, j: int)
    requires
        0 <= i <= j <= s.len(),
        forall|k: int| i <= k < j ==> s[k] != c,
    ensures
        find_from(s, c, i) == find_from(s, c, j),
    decreases j - i,
{
    if i < j {
        lemma_find_from_shift(s, c, i + 1, j);
    }
}

/// Backward search skips over a run without matches.
pub proof fn lemma_rfind_to_shift(s: Seq<char>, c: char, j: int, i: int)
    requires
        0 <= j <= i < s.len(),
        forall|k: int| j < k <= i ==> s[k] != c,
    ensures
        rfind_to(s, c, i) == rfind_to(s, c, j),
    decreases i - j,
{
    if j < i {
        lemma_rfind_to_shift(s, c, j, i - 1);
    }
}

/// Find the first occurrence of `c` in `s[from..]`, executably.
pub fn find_char(s: &[char], c: char, from: usize) -> (r: Option<usize>)
    requires
        from <= s@.len(),
    ensures
        match r {
            Some(j) => find_from(s@, c, from as int) == Some(j as int) && from <= j < s@.len(),
            None => find_from(s@, c, from as int) is None,
        },
{
    let n = s.len();
    let mut i = from;
    while i < n
        invariant
            from <= i <= n == s@.len(),
            find_from(s@, c, from as int) == find_from(s@, c, i as int),
        decreases n - i,
    {
        if s[i] == c {
            return Some(i);
        }
        i = i + 1;
    }
    None
}

/// Find the last occurrence of `c` in `s`, executably.
pub fn rfind_char_at(s: &[char], c: char) -> (r: Option<usize>)
    ensures
        match r {
            Some(j) => rfind_char(s@, c) == Some(j as int) && j < s@.len(),
            None => rfind_char(s@, c) is None,
        },
{
    let mut i = s.len();
    while i > 0
        invariant
            i <= s@.len(),
            rfind_char(s@, c) == rfind_to(s@, c, i - 1),
        decreases i,
    {
        i = i - 1;
        if s[i] == c {
            return Some(i);
        }
    }
    None
}

/// `pat` occurs in `s` starting at position `i`.
pub open spec fn matches_at(s: Seq<char>, pat: Seq<char>, i: int) -> bool {
    0 <= i && i + pat.len() <= s.len() && s.subrange(i, i + pat.len()) == pat
}

/// Whether the literal `pat` occurs in `s` at position `i`, executably.
pub fn matches_at_lit(s: &[char], pat: &str, i: usize) -> (r: bool)
    ensures
        r == matches_at(s@, pat@, i as int),
{
    let m = pat.unicode_len();
    let n = s.len();
    if m > n || i > n - m {
        proof {
            assert(!matches_at(s@, pat@, i as int));
        }
        return false;
    }
    for j in 0..m
        invariant
            m == pat@.len(),
            n == s@.len(),
            i + m <= n,
            forall|k: int| 0 <= k < j ==> s@[i + k] == pat@[k],
    {
        if s[i + j] != pat.get_char(j) {
            proof {
                assert(s@.subrange(i as int, i + m) != pat@) by {
                    assert(s@.subrange(i as int, i + m)[j as int] == s@[i + j]);
                }
            }
            return false;
        }
    }
    proof {
        assert(s@.subrange(i as int, i + m) =~= pat@);
    }
    true
}

/// Substring search skips over a run without matches.
pub proof fn lemma_find_seq_shift(s: Seq<char>, pat: Seq<char>, i: int, j: int)
    requires
        0 <= i <= j,
        j + pat.len() <= s.len() + 1,
        forall|k: int| i <= k < j ==> !matches_at(s, pat, k),
    ensures
        find_seq_from(s, pat, i) == find_seq_from(s, pat, j),
    decreases j - i,
{
    if i < j {
        lemma_find_seq_shift(s, pat, i + 1, j);
    }
}

/// First position at or after `i` where `pat` occurs in `s`.
pub open spec fn find_seq_from(s: Seq<char>, pat: Seq<char>, i: int) -> Option<int>
    decreases s.len() - i + 1,
{
    if i < 0 || i + pat.len() > s.len() {
        None
    } else if matches_at(s, pat, i) {
        Some(i)
    } else {
        find_seq_from(s, pat, i + 1)
    }
}

/// Find the first occurrence of the literal `pat` at or after `from`.
pub fn find_sub(s: &[char], pat: &str, from: usize) -> (r: Option<usize>)
    requires
        from <= s@.len(),
    ensures
        match r {
            Some(j) => find_seq_from(s@, pat@, from as int) == Some(j as int) && from <= j
                && j + pat@.len() <= s@.len(),
            None => find_seq_from(s@, pat@, from as int) is None,
        },
{
    let n = s.len();
    let mut i = from;
    while i < n
        invariant
            from <= i <= n == s@.len(),
            find_seq_from(s@, pat@, from as int) == find_seq_from(s@, pat@, i as int),
        decreases n - i,
    {
        if matches_at_lit(s, pat, i) {
            return Some(i);
        }
        i = i + 1;
    }
    proof {
        if pat@.len() == 0 {
            assert(matches_at(s@, pat@, i as int)) by {
                assert(s@.subrange(i as int, i as int) =~= pat@);
            }
        }
    }
    if matches_at_lit(s, pat, i) {
        return Some(i);
    }
    None
}

/// ASCII whitespace, as `str::trim` strips it for plain-ASCII input.
/// Trimming here covers the ASCII whitespace characters; whitespace
/// outside ASCII is kept.
pub open spec fn is_space(c: char) -> bool {
    c == ' ' || c == '\t' || c == '\n' || c == '\r' || c == '\u{b}' || c == '\u{c}'
}

/// `s` without leading whitespace.
pub open spec fn trim_start_spec(s: Seq<char>) -> Seq<char>
    decreases s.len(),
{
    if s.len() > 0 && is_space(s[0]) {
        trim_start_spec(s.drop_first())
    } else {
        s
    }
}

/// `s` without trailing whitespace.
pub open spec fn trim_end_spec(s: Seq<char>) -> Seq<char>
    decreases s.len(),
{
    if s.len() > 0 && is_space(s.last()) {
        trim_end_spec(s.drop_last())
    } else {
        s
    }
}

/// `s` without leading and trailing whitespace.
pub open spec fn trim_spec(s: Seq<char>) -> Seq<char> {
    trim_end_spec(trim_start_spec(s))
}

proof fn lemma_trim_start_at(s: Seq<char>, i: int)
    requires
        0 <= i <= s.len(),
        forall|k: int| 0 <= k < i ==> is_space(s[k]),
        i < s.len() ==> !is_space(s[i]),
    ensures
        trim_start_spec(s) == s.skip(i),
    decreases i,
{
    if i == 0 {
        assert(s.skip(0) =~= s);
    } else {
        lemma_trim_start_at(s.drop_first(), i - 1);
        assert(s.drop_first().skip(i - 1) =~= s.skip(i));
    }
}

proof fn lemma_trim_end_at(s: Seq<char>, i: int)
    requires
        0 <= i <= s.len(),
        forall|k: int| i <= k < s.len() ==> is_space(s[k]),
        i > 0 ==> !is_space(s[i - 1]),
    ensures
        trim_end_spec(s) == s.take(i),
    decreases s.len() - i,
{
    if i == s.len() {
        assert(s.take(i) =~= s);
    } else {
        lemma_trim_end_at(s.drop_last(), i);
        assert(s.drop_last().take(i) =~= s.take(i));
    }
}

/// Trimming changes nothing when the ends hold no whitespace.
pub proof fn lemma_trim_noop(s: Seq<char>)
    requires
        s.len() > 0 ==> !is_space(s[0]) && !is_space(s.last()),
    ensures
        trim_spec(s) == s,
{
    lemma_trim_start_at(s, 0);
    assert(s.skip(0) =~= s);
    lemma_trim_end_at(s, s.len() as int);
    assert(s.take(s.len() as int) =~= s);
}

/// The bounds of the whitespace-trimmed middle of `s`.
pub fn trim_bounds(s: &[char]) -> (r: (usize, usize))
    ensures
        r.0 <= r.1 <= s@.len(),
        s@.subrange(r.0 as int, r.1 as int) == trim_spec(s@),
{
    let n = s.len();
    let mut lo: usize = 0;
    while lo < n && (s[lo] == ' ' || s[lo] == '\t' || s[lo] == '\n' || s[lo] == '\r' || s[lo]
        == '\u{b}' || s[lo] == '\u{c}')
        invariant
            lo <= n == s@.len(),
            forall|k: int| 0 <= k < lo ==> is_space(s@[k]),
        decreases n - lo,
    {
        lo = lo + 1;
    }
    proof {
        lemma_trim_start_at(s@, lo as int);
    }
    let mut hi: usize = n;
    while hi > lo && (s[hi - 1] == ' ' || s[hi - 1] == '\t' || s[hi - 1] == '\n' || s[hi - 1]
        == '\r' || s[hi - 1] == '\u{b}' || s[hi - 1] == '\u{c}')
        invariant
            lo <= hi <= n == s@.len(),
            forall|k: int| hi <= k < n ==> is_space(s@[k]),
        decreases hi,
    {
        hi = hi - 1;
    }
    proof {
        let t = s@.skip(lo as int);
        assert(forall|k: int| hi - lo <= k < t.len() ==> is_space(t[k]));
        lemma_trim_end_at(t, hi - lo);
        assert(t.take(hi - lo) =~= s@.subrange(lo as int, hi as int));
    }
    (lo, hi)
}

/// Every character of `s` is a decimal digit.
pub open spec fn all_digits(s: Seq<char>) -> bool {
    forall|i: int| 0 <= i < s.len() ==> is_digit(s[i])
}

/// `s` is a run of digits whose value fits in a `u64`.
pub open spec fn u64_digits(s: Seq<char>) -> bool {
    s.len() > 0 && all_digits(s) && dec_value(s) <= u64::MAX
}

/// `s` parses as a `u64`: digits, optionally preceded by one `+`.
pub open spec fn u64_string(s: Seq<char>) -> bool {
    if s.len() > 0 && s[0] == '+' {
        u64_digits(s.drop_first())
    } else {
        u64_digits(s)
    }
}

/// The value of a string accepted by `u64_string`.
pub open spec fn u64_string_val(s: Seq<char>) -> int {
    if s.len() > 0 && s[0] == '+' {
        dec_value(s.drop_first())
    } else {
        dec_value(s)
    }
}

/// A digit string's value is nonnegative and grows with its prefixes.
pub proof fn lemma_dec_value_prefix(s: Seq<char>, i: int)
    requires
        all_digits(s),
        0 <= i <= s.len(),
    ensures
        0 <= dec_value(s.take(i)) <= dec_value(s),
    decreases s.len() - i,
{
    lemma_dec_value_nonneg(s.take(i));
    if i == s.len() {
        assert(s.take(i) =~= s);
    } else {
        lemma_dec_value_prefix(s, i + 1);
        assert(s.take(i + 1).drop_last() =~= s.take(i));
        assert(is_digit(s.take(i + 1).last()));
        lemma_dec_value_nonneg(s.take(i));
    }
}

proof fn lemma_dec_value_nonneg(s: Seq<char>)
    requires
        all_digits(s),
    ensures
        dec_value(s) >= 0,
    decreases s.len(),
{
    if s.len() > 0 {
        assert(all_digits(s.drop_last()));
        lemma_dec_value_nonneg(s.drop_last());
    }
}

/// Parse `s[from..to]` as a `u64`, as the decimal grammar defines it.
#[verifier::loop_isolation(false)]
pub fn parse_u64_range(s: &[char], from: usize, to: usize) -> (r: Option<u64>)
    requires
        from <= to <= s@.len(),
    ensures
        match r {
            Some(v) => u64_string(s@.subrange(from as int, to as int)) && v == u64_string_val(
                s@.subrange(from as int, to as int),
            ),
            None => !u64_string(s@.subrange(from as int, to as int)),
        },
{
    let ghost whole = s@.subrange(from as int, to as int);
    let start = if from < to && s[from] == '+' {
        from + 1
    } else {
        from
    };
    let ghost d = s@.subrange(start as int, to as int);
    proof {
        if from < to && s@[from as int] == '+' {
            assert(whole.drop_first() =~= d);
        } else {
            assert(whole =~= d);
        }
    }
    if start == to {
        return None;
    }
    let mut acc: u64 = 0;
    let mut i = start;
    while i < to
        invariant
            start <= i <= to <= s@.len(),
            d == s@.subrange(start as int, to as int),
            all_digits(d.take(i - start)),
            acc == dec_value(d.take(i - start)),
        decreases to - i,
    {
        let c = s[i];
        proof {
            assert(d[i - start] == s@[i as int]);
        }
        let dv: u64 = match digit_value(c) {
            Some(v) => v as u64,
            None => {
                proof {
                    assert(!is_digit(d[i - start]));
                    assert(!all_digits(d));
                }
                return None;
            },
        };
        proof {
            assert(is_digit(s@[i as int]));
            assert(d.take(i - start + 1).drop_last() =~= d.take(i - start));
            assert(d.take(i - start + 1).last() == s@[i as int]);
            let p = d.take(i - start + 1);
            assert forall|k: int| 0 <= k < p.len() implies is_digit(p[k]) by {
                if k < p.len() - 1 {
                    assert(p[k] == d.take(i - start)[k]);
                } else {
                    assert(p[k] == s@[i as int]);
                }
            }
        }
        if acc > (u64::MAX - dv) / 10 {
            proof {
                let p = d.take(i - start + 1);
                assert(dec_value(p) == acc * 10 + dv);
                assert(acc * 10 + dv > u64::MAX) by {
                    assert(acc >= (u64::MAX - dv) / 10 + 1);
                    assert(((u64::MAX - dv) / 10 + 1) * 10 == ((u64::MAX - dv) / 10) * 10 + 10);
                    assert(((u64::MAX - dv) / 10) * 10 > u64::MAX - dv - 10);
                };
                if all_digits(d) {
                    lemma_dec_value_prefix(d, i - start + 1);
                    assert(dec_value(d) >= dec_value(p));
                }
            }
            return None;
        }
        proof {
            assert(acc * 10 + dv <= u64::MAX) by {
                assert(acc <= (u64::MAX - dv) / 10);
                assert(((u64::MAX - dv) / 10) * 10 <= u64::MAX - dv);
                assert(acc * 10 <= ((u64::MAX - dv) / 10) * 10);
            };
        }
        acc = acc * 10 + dv;
        i = i + 1;
    }
    proof {
        assert(d.take(to - start) =~= d);
    }
    Some(acc)
}

/// A hexadecimal digit, either case.
pub open spec fn is_hex(c: char) -> bool {
    is_digit(c) || ('a' <= c && c <= 'f') || ('A' <= c && c <= 'F')
}

/// Numeric value of a hexadecimal digit.
pub open spec fn hex_val(c: char) -> int {
    if is_digit(c) {
        digit_val(c)
    } else if 'a' <= c && c <= 'f' {
        c as int - 'a' as int + 10
    } else {
        c as int - 'A' as int + 10
    }
}

/// Whether position `i` of a 36-character UUID holds what the format
/// demands: a dash at the four group boundaries, a hex digit elsewhere.
pub open spec fn uuid_pos_ok(s: Seq<char>, i: int) -> bool {
    if i == 8 || i == 13 || i == 18 || i == 23 {
        s[i] == '-'
    } else {
        is_hex(s[i])
    }
}

/// `s` is a canonical UUID: five dash-separated hex groups of lengths
/// 8, 4, 4, 4 and 12, case-insensitive.
pub open spec fn is_uuid_seq(s: Seq<char>) -> bool {
    s.len() == 36 && forall|i: int| 0 <= i < 36 ==> #[trigger] uuid_pos_ok(s, i)
}

/// The character with code `b`, for a decoded byte.
pub open spec fn byte_char(b: int) -> char {
    ((b as u8) as char)
}

/// Percent-decoding of a query component: `+` becomes a space and
/// `%` followed by two hex digits becomes the character whose code is
/// that byte value; everything else passes through. Escapes are taken
/// bytewise — a multi-byte UTF-8 escape sequence decodes to one
/// character per byte, not to the code point the bytes would spell
/// together; on ASCII escapes this agrees with form-urlencoded
/// decoding.
pub open spec fn pct_decode_spec(s: Seq<char>) -> Seq<char>
    decreases s.len(),
{
    if s.len() == 0 {
        Seq::empty()
    } else if s[0] == '+' {
        seq![' '] + pct_decode_spec(s.skip(1))
    } else if s[0] == '%' && s.len() >= 3 && is_hex(s[1]) && is_hex(s[2]) {
        seq![byte_char(hex_val(s[1]) * 16 + hex_val(s[2]))] + pct_decode_spec(s.skip(3))
    } else {
        seq![s[0]] + pct_decode_spec(s.skip(1))
    }
}

/// The value of a decimal digit character, executably.
pub fn digit_value(c: char) -> (r: Option<u8>)
    ensures
        match r {
            Some(v) => is_digit(c) && v as int == digit_val(c),
            None => !is_digit(c),
        },
{
    match c {
        '0' => Some(0),
        '1' => Some(1),
        '2' => Some(2),
        '3' => Some(3),
        '4' => Some(4),
        '5' => Some(5),
        '6' => Some(6),
        '7' => Some(7),
        '8' => Some(8),
        '9' => Some(9),
        _ => None,
    }
}

/// The value of a hexadecimal digit character, executably.
pub fn hex_digit(c: char) -> (r: Option<u8>)
    ensures
        match r {
            Some(v) => is_hex(c) && v as int == hex_val(c),
            None => !is_hex(c),
        },
{
    match c {
        'a' => Some(10),
        'b' => Some(11),
        'c' => Some(12),
        'd' => Some(13),
        'e' => Some(14),
        'f' => Some(15),
        'A' => Some(10),
        'B' => Some(11),
        'C' => Some(12),
        'D' => Some(13),
        'E' => Some(14),
        'F' => Some(15),
        _ => digit_value(c),
    }
}

/// Percent-decode `s[from..to]`.
pub fn pct_decode_range(s: &[char], from: usize, to: usize) -> (r: String)
    requires
        from <= to <= s@.len(),
    ensures
        r@ == pct_decode_spec(s@.subrange(from as int, to as int)),
{
    let ghost whole = s@.subrange(from as int, to as int);
    let mut out = String::new();
    let mut i = from;
    while i < to
        invariant
            from <= i <= to <= s@.len(),
            whole == s@.subrange(from as int, to as int),
            pct_decode_spec(whole) == out@ + pct_decode_spec(s@.subrange(i as int, to as int)),
        decreases to - i,
    {
        let ghost rest = s@.subrange(i as int, to as int);
        let c = s[i];
        proof {
            assert(rest[0] == c);
        }
        if c == '+' {
            push_char(&mut out, ' ');
            proof {
                assert(rest.skip(1) =~= s@.subrange(i + 1, to as int));
            }
            i = i + 1;
        } else if c == '%' && to - i > 2 {
            proof {
                assert(rest[1] == s@[i + 1]);
                assert(rest[2] == s@[i + 2]);
            }
            match (hex_digit(s[i + 1]), hex_digit(s[i + 2])) {
                (Some(h1), Some(h2)) => {
                    push_char(&mut out, (h1 * 16 + h2) as char);
                    proof {
                        assert(rest.skip(3) =~= s@.subrange(i + 3, to as int));
                    }
                    i = i + 3;
                },
                _ => {
                    push_char(&mut out, c);
                    proof {
                        assert(rest.skip(1) =~= s@.subrange(i + 1, to as int));
                    }
                    i = i + 1;
                },
            }
        } else {
            push_char(&mut out, c);
            proof {
                if c == '%' && rest.len() >= 3 && is_hex(rest[1]) && is_hex(rest[2]) {
                    assert(rest[1] == s@[i + 1]);
                    assert(i + 2 < to);
                }
                assert(rest.skip(1) =~= s@.subrange(i + 1, to as int));
            }
            i = i + 1;
        }
    }
    proof {
        assert(pct_decode_spec(s@.subrange(to as int, to as int)) =~= Seq::<char>::empty());
    }
    out
}

/// The nonempty pieces of `s` split on `sep`, from position `i`, with
/// `cur` the piece read so far.
pub open spec fn segments_acc(s: Seq<char>, sep: char, i: int, cur: Seq<char>) -> Seq<Seq<char>>
    decreases s.len() - i,
{
    if !(0 <= i < s.len()) {
        if cur.len() > 0 {
            seq![cur]
        } else {
            seq![]
        }
    } else if s[i] == sep {
        (if cur.len() > 0 {
            seq![cur]
        } else {
            seq![]
        }) + segments_acc(s, sep, i + 1, Seq::empty())
    } else {
        segments_acc(s, sep, i + 1, cur.push(s[i]))
    }
}

/// The nonempty pieces of `s` split on `sep`.
pub open spec fn segments_of(s: Seq<char>, sep: char) -> Seq<Seq<char>> {
    segments_acc(s, sep, 0, Seq::empty())
}

/// Split `s[from..to]` on `sep`, dropping empty pieces.
#[verifier::loop_isolation(false)]
pub fn split_nonempty(s: &[char], from: usize, to: usize, sep: char) -> (r: Vec<Vec<char>>)
    requires
        from <= to <= s@.len(),
    ensures
        r.deep_view() == segments_of(s@.subrange(from as int, to as int), sep),
{
    let ghost sub = s@.subrange(from as int, to as int);
    let mut pieces: Vec<Vec<char>> = Vec::new();
    let mut cur: Vec<char> = Vec::new();
    let mut i = from;
    while i < to
        invariant
            from <= i <= to,
            segments_of(sub, sep) == pieces.deep_view() + segments_acc(
                sub,
                sep,
                i - from,
                cur@,
            ),
        decreases to - i,
    {
        proof {
            assert(sub[i - from] == s@[i as int]);
        }
        let ghost rest = segments_acc(sub, sep, i - from + 1, Seq::<char>::empty());
        let c = s[i];
        if c == sep {
            let ghost prev = pieces.deep_view();
            let ghost pc = cur@;
            if cur.len() > 0 {
                pieces.push(cur);
                cur = Vec::new();
                proof {
                    assert(pieces.deep_view() =~~= prev.push(pc));
                    assert(prev + (seq![pc] + rest) =~~= prev.push(pc) + rest);
                }
            } else {
                proof {
                    assert(pc =~= Seq::<char>::empty());
                    assert(Seq::<Seq<char>>::empty() + rest =~= rest);
                }
            }
        } else {
            cur.push(c);
        }
        i = i + 1;
    }
    let ghost prev = pieces.deep_view();
    let ghost pc = cur@;
    if cur.len() > 0 {
        pieces.push(cur);
        proof {
            assert(pieces.deep_view() =~~= prev.push(pc));
            assert(prev + seq![pc] =~~= prev.push(pc));
        }
    } else {
        proof {
            assert(prev + Seq::<Seq<char>>::empty() =~= prev);
        }
    }
    pieces
}

/// Every piece splitting yields is nonempty.
pub proof fn lemma_segments_nonempty(s: Seq<char>, sep: char, i: int, cur: Seq<char>)
    ensures
        forall|k: int|
            0 <= k < segments_acc(s, sep, i, cur).len() ==> #[trigger] segments_acc(
                s,
                sep,
                i,
                cur,
            )[k].len() > 0,
    decreases s.len() - i,
{
    if !(0 <= i < s.len()) {
    } else if s[i] == sep {
        lemma_segments_nonempty(s, sep, i + 1, Seq::empty());
        let head = if cur.len() > 0 {
            seq![cur]
        } else {
            Seq::<Seq<char>>::empty()
        };
        let rest = segments_acc(s, sep, i + 1, Seq::<char>::empty());
        assert forall|k: int| 0 <= k < segments_acc(s, sep, i, cur).len() implies #[trigger]
        segments_acc(s, sep, i, cur)[k].len() > 0 by {
            assert(segments_acc(s, sep, i, cur) == head + rest);
            if k < head.len() {
                assert(segments_acc(s, sep, i, cur)[k] == cur);
            } else {
                assert(segments_acc(s, sep, i, cur)[k] == rest[k - head.len()]);
            }
        }
    } else {
        lemma_segments_nonempty(s, sep, i + 1, cur.push(s[i]));
        assert forall|k: int| 0 <= k < segments_acc(s, sep, i, cur).len() implies #[trigger]
        segments_acc(s, sep, i, cur)[k].len() > 0 by {
            assert(segments_acc(s, sep, i, cur)[k] == segments_acc(
                s,
                sep,
                i + 1,
                cur.push(s[i]),
            )[k]);
        }
    }
}

/// Reading a separator-free run extends the current piece by exactly
/// that run.
pub proof fn lemma_segments_clean_run(s: Seq<char>, sep: char, i: int, j: int, cur: Seq<char>)
    requires
        0 <= i <= j <= s.len(),
        forall|k: int| i <= k < j ==> s[k] != sep,
    ensures
        segments_acc(s, sep, i, cur) == segments_acc(s, sep, j, cur + s.subrange(i, j)),
    decreases j - i,
{
    if i == j {
        assert(cur + s.subrange(i, j) =~= cur);
    } else {
        lemma_segments_clean_run(s, sep, i + 1, j, cur.push(s[i]));
        assert(cur.push(s[i]) + s.subrange(i + 1, j) =~= cur + s.subrange(i, j));
    }
}

/// The canonical decimal rendering is made of digits and is injective.
pub proof fn lemma_dec_str_digits(n: int)
    requires
        n >= 0,
    ensures
        dec_str(n).len() >= 1,
        all_digits(dec_str(n)),
        n <= 9 ==> dec_str(n).len() == 1,
        n > 9 ==> dec_str(n).len() >= 2,
        dec_value(dec_str(n)) == n,
    decreases n,
{
    if n <= 9 {
        assert(dec_str(n) =~= seq![digit_char(n)]);
        assert(dec_value(dec_str(n)) == dec_value(seq![digit_char(n)].drop_last()) * 10
            + digit_val(digit_char(n)));
        assert(seq![digit_char(n)].drop_last() =~= Seq::<char>::empty());
    } else {
        lemma_dec_str_digits(n / 10);
        let d = dec_str(n);
        assert(d.drop_last() =~= dec_str(n / 10));
        assert(d.last() == digit_char(n % 10));
        assert(dec_value(d) == dec_value(dec_str(n / 10)) * 10 + digit_val(digit_char(n % 10)));
        assert(digit_val(digit_char(n % 10)) == n % 10);
        assert((n / 10) * 10 + n % 10 == n);
        assert forall|k: int| 0 <= k < d.len() implies is_digit(d[k]) by {
            if k < d.len() - 1 {
                assert(d[k] == dec_str(n / 10)[k]);
            }
        }
    }
}

/// Two numbers with the same decimal rendering are the same number.
pub proof fn lemma_dec_str_injective(a: int, b: int)
    requires
        a >= 0,
        b >= 0,
        dec_str(a) == dec_str(b),
    ensures
        a == b,
{
    lemma_dec_str_digits(a);
    lemma_dec_str_digits(b);
    assert(dec_value(dec_str(a)) == dec_value(dec_str(b)));
}

/// Equal concatenations with an equal first part have equal second
/// parts.
pub proof fn lemma_cancel_prefix(x: Seq<char>, a: Seq<char>, b: Seq<char>)
    requires
        x + a == x + b,
    ensures
        a == b,
{
    assert((x + a).len() == x.len() + a.len());
    assert((x + b).len() == x.len() + b.len());
    assert(a.len() == b.len());
    assert forall|i: int| 0 <= i < a.len() implies a[i] == b[i] by {
        assert((x + a)[x.len() + i] == a[i]);
        assert((x + b)[x.len() + i] == b[i]);
    }
    assert(a =~= b);
}

/// The characters `s[from..to]` as an owned vector.
pub fn sub_chars(s: &[char], from: usize, to: usize) -> (r: Vec<char>)
    requires
        from <= to <= s@.len(),
    ensures
        r@ == s@.subrange(from as int, to as int),
{
    let mut r: Vec<char> = Vec::new();
    for i in from..to
        invariant
            from <= i <= to <= s@.len(),
            r@ =~= s@.subrange(from as int, i as int),
    {
        r.push(s[i]);
        proof {
            assert(r@ =~= s@.subrange(from as int, i + 1));
        }
    }
    r
}

/// Compare an owned string against a literal.
pub fn string_eq_lit(s: &String, lit: &str) -> (r: bool)
    ensures
        r == (s@ == lit@),
{
    let cs = to_chars(s.as_str());
    let n = cs.len();
    if n != lit.unicode_len() {
        return false;
    }
    let r = matches_at_lit(cs.as_slice(), lit, 0);
    proof {
        if r {
            assert(cs@.subrange(0, n as int) =~= cs@);
        } else {
            assert(cs@.subrange(0, n as int) =~= cs@);
        }
    }
    r
}

/// Compare a borrowed string against a literal.
pub fn str_eq_lit(s: &str, lit: &str) -> (r: bool)
    ensures
        r == (s@ == lit@),
{
    let cs = to_chars(s);
    let n = cs.len();
    if n != lit.unicode_len() {
        return false;
    }
    let r = matches_at_lit(cs.as_slice(), lit, 0);
    proof {
        assert(cs@.subrange(0, n as int) =~= cs@);
    }
    r
}

/// Compare two character slices.
pub fn chars_eq(a: &[char], b: &[char]) -> (r: bool)
    ensures
        r == (a@ == b@),
{
    let n = a.len();
    if n != b.len() {
        return false;
    }
    for i in 0..n
        invariant
            n == a@.len() == b@.len(),
            forall|k: int| 0 <= k < i ==> a@[k] == b@[k],
    {
        if a[i] != b[i] {
            return false;
        }
    }
    proof {
        assert(a@ =~= b@);
    }
    true
}

/// Compare a character range against a literal.
pub fn range_eq_lit(s: &[char], from: usize, to: usize, lit: &str) -> (r: bool)
    requires
        from <= to <= s@.len(),
    ensures
        r == (s@.subrange(from as int, to as int) == lit@),
{
    if to - from != lit.unicode_len() {
        proof {
            assert(s@.subrange(from as int, to as int).len() == to - from);
        }
        return false;
    }
    let r = matches_at_lit(s, lit, from);
    proof {
        assert(s@.subrange(from as int, from + lit@.len()) == s@.subrange(
            from as int,
            to as int,
        ));
    }
    r
}

/// `s` with every occurrence of `pat` replaced by `rep`, scanning left
/// to right, from position `i`.
pub open spec fn replace_from(s: Seq<char>, pat: Seq<char>, rep: Seq<char>, i: int) -> Seq<char>
    decreases s.len() - i,
{
    if i < 0 || i >= s.len() {
        Seq::empty()
    } else if pat.len() == 0 {
        s.skip(i)
    } else if matches_at(s, pat, i) {
        rep + replace_from(s, pat, rep, i + pat.len())
    } else {
        seq![s[i]] + replace_from(s, pat, rep, i + 1)
    }
}

/// `s` with every occurrence of `pat` replaced by `rep`.
pub open spec fn replace_spec(s: Seq<char>, pat: Seq<char>, rep: Seq<char>) -> Seq<char> {
    replace_from(s, pat, rep, 0)
}

/// String replacement, as `str::replace` performs it for a nonempty
/// pattern.
#[verifier::loop_isolation(false)]
pub fn replace(s: &str, pat: &str, rep: &str) -> (r: String)
    requires
        pat@.len() > 0,
    ensures
        r@ == replace_spec(s@, pat@, rep@),
{
    let cs = to_chars(s);
    let n = cs.len();
    let mut out = String::new();
    let mut i: usize = 0;
    while i < n
        invariant
            i <= n,
            replace_spec(s@, pat@, rep@) == out@ + replace_from(cs@, pat@, rep@, i as int),
        decreases n - i,
    {
        if matches_at_lit(cs.as_slice(), pat, i) {
            out.append(rep);
            i = i + pat.unicode_len();
        } else {
            push_char(&mut out, cs[i]);
            i = i + 1;
        }
    }
    out
}

/// ASCII lower-casing of one character.
pub open spec fn lower_char(c: char) -> char {
    if 'A' <= c && c <= 'Z' {
        ((c as u8) + 32) as char
    } else {
        c
    }
}

/// Case-insensitive equality on ASCII letters, as
/// `str::eq_ignore_ascii_case` decides it for ASCII input.
pub open spec fn eq_ignore_case_spec(a: Seq<char>, b: Seq<char>) -> bool {
    a.len() == b.len() && forall|i: int| 0 <= i < a.len() ==> lower_char(a[i]) == lower_char(b[i])
}

fn lower_one(c: char) -> (r: char)
    ensures
        r == lower_char(c),
{
    match c {
        'A' => 'a',
        'B' => 'b',
        'C' => 'c',
        'D' => 'd',
        'E' => 'e',
        'F' => 'f',
        'G' => 'g',
        'H' => 'h',
        'I' => 'i',
        'J' => 'j',
        'K' => 'k',
        'L' => 'l',
        'M' => 'm',
        'N' => 'n',
        'O' => 'o',
        'P' => 'p',
        'Q' => 'q',
        'R' => 'r',
        'S' => 's',
        'T' => 't',
        'U' => 'u',
        'V' => 'v',
        'W' => 'w',
        'X' => 'x',
        'Y' => 'y',
        'Z' => 'z',
        _ => {
            proof {
                if 'A' <= c && c <= 'Z' {
                    assert(false);
                }
            }
            c
        },
    }
}

/// Compare `s` against the literal `pat`, ignoring ASCII case.
#[verifier::loop_isolation(false)]
pub fn eq_ignore_case_lit(s: &[char], pat: &str) -> (r: bool)
    ensures
        r == eq_ignore_case_spec(s@, pat@),
{
    let m = pat.unicode_len();
    if s.len() != m {
        return false;
    }
    for j in 0..m
        invariant
            forall|k: int| 0 <= k < j ==> lower_char(s@[k]) == lower_char(pat@[k]),
    {
        if lower_one(s[j]) != lower_one(pat.get_char(j)) {
            return false;
        }
    }
    true
}

} // verus!
