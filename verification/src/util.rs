//! String utilities around user input: UTF-8-safe truncation, output
//! filename validation, and parsing of sizes and speeds with `K`/`M`/`G`
//! suffixes.

use vstd::prelude::*;

verus! {

use crate::text::{
    digit_value,
    is_digit_char,
    is_space_char,
    lower_char,
    lowered,
    trimmed,
    upper_char,
    uppered,
    is_ascii_space,
    ascii_upper_char,
    ascii_lower_char,
    is_ascii_digit_char,
    decimal_digit_value,
};
use vstd::string::StringExecFns;
use vstd::string::StrSliceExecFns;
use vstd::utf8::{encode_scalar, encode_utf8};

/// Byte length of the UTF-8 encoding of a character sequence.
pub open spec fn utf8_len(s: Seq<char>) -> nat {
    encode_utf8(s).len()
}

/// The largest count of leading characters whose UTF-8 encoding fits within
/// `limit` bytes.
pub open spec fn keep_count(s: Seq<char>, limit: nat) -> nat
    decreases s.len(),
{
    if utf8_len(s) <= limit {
        s.len()
    } else if s.len() == 0 {
        0
    } else {
        keep_count(s.drop_last(), limit)
    }
}

/// Truncation of a string to at most `max` bytes of UTF-8: a string whose
/// encoding fits is returned whole; otherwise the longest character prefix
/// fitting in `max - 3` bytes is kept and `"..."` appended, cutting only on
/// character boundaries.
pub open spec fn spec_truncate_str(s: Seq<char>, max: nat) -> Seq<char> {
    if utf8_len(s) <= max {
        s
    } else {
        let limit = if max >= 3 {
            (max - 3) as nat
        } else {
            0
        };
        s.take(keep_count(s, limit) as int) + seq!['.', '.', '.']
    }
}

/// The number of bytes the UTF-8 encoding of one character takes.
pub fn char_utf8_len(c: char) -> (r: u8)
    ensures
        (r as nat) == encode_scalar(c as u32).len(),
        1 <= r <= 4,
{
    let u = c as u32;
    if u < 0x80 {
        1
    } else if u < 0x800 {
        2
    } else if u < 0x10000 {
        3
    } else {
        4
    }
}

/// Appending a character appends its scalar encoding.
pub proof fn lemma_encode_utf8_snoc(s: Seq<char>, c: char)
    ensures
        encode_utf8(s.push(c)) == encode_utf8(s) + encode_scalar(c as u32),
    decreases s.len(),
{
    reveal_with_fuel(encode_utf8, 3);
    if s.len() == 0 {
        assert(s.push(c)[0] == c);
        assert(s.push(c).drop_first() =~= Seq::<char>::empty());
        assert(encode_utf8(s.push(c)) =~= encode_utf8(s) + encode_scalar(c as u32));
    } else {
        assert(s.push(c)[0] == s[0]);
        assert(s.push(c).drop_first() =~= s.drop_first().push(c));
        lemma_encode_utf8_snoc(s.drop_first(), c);
        assert(encode_utf8(s.push(c)) =~= encode_scalar(s[0] as u32) + (encode_utf8(
            s.drop_first(),
        ) + encode_scalar(c as u32)));
        assert(encode_utf8(s.push(c)) =~= encode_utf8(s) + encode_scalar(c as u32));
    }
}

/// A character prefix never encodes to more bytes than the whole.
pub proof fn lemma_utf8_len_take_le(s: Seq<char>, j: int)
    requires
        0 <= j <= s.len(),
    ensures
        utf8_len(s.take(j)) <= utf8_len(s),
    decreases s.len() - j,
{
    if j == s.len() {
        assert(s.take(j) =~= s);
    } else {
        assert(s.take(j + 1) =~= s.take(j).push(s[j]));
        lemma_encode_utf8_snoc(s.take(j), s[j]);
        lemma_utf8_len_take_le(s, j + 1);
    }
}

/// `keep_count` is the unique cut that fits while the next character would
/// not.
pub proof fn lemma_keep_count_is(s: Seq<char>, limit: nat, k: nat)
    requires
        k <= s.len(),
        utf8_len(s.take(k as int)) <= limit,
        k == s.len() || utf8_len(s.take(k as int + 1)) > limit,
    ensures
        keep_count(s, limit) == k,
    decreases s.len(),
{
    if utf8_len(s) <= limit {
        if k < s.len() {
            lemma_utf8_len_take_le(s, k as int + 1);
            assert(false);
        }
    } else {
        assert(s.take(s.len() as int) =~= s);
        assert(k < s.len());
        let t = s.drop_last();
        assert(t.take(k as int) =~= s.take(k as int));
        if k < t.len() {
            assert(t.take(k as int + 1) =~= s.take(k as int + 1));
        } else {
            assert(t.take(k as int) =~= t);
        }
        lemma_keep_count_is(t, limit, k);
    }
}

/// The kept prefix exists and fits the limit.
proof fn lemma_keep_fits(s: Seq<char>, limit: nat)
    ensures
        keep_count(s, limit) <= s.len(),
        utf8_len(s.take(keep_count(s, limit) as int)) <= limit,
    decreases s.len(),
{
    if utf8_len(s) <= limit {
        assert(s.take(s.len() as int) =~= s);
    } else {
        if s.len() == 0 {
            assert(encode_utf8(s) =~= Seq::<u8>::empty());
        }
        let t = s.drop_last();
        lemma_keep_fits(t, limit);
        let k = keep_count(t, limit);
        assert(s.take(k as int) =~= t.take(k as int));
    }
}

/// A truncated string fits its limit: whenever the limit leaves room for
/// the ellipsis, the result's encoding is at most `max` bytes long.
pub proof fn lemma_truncate_fits(s: Seq<char>, max: nat)
    requires
        max >= 3,
    ensures
        utf8_len(spec_truncate_str(s, max)) <= max,
{
    if utf8_len(s) <= max {
    } else {
        let limit = (max - 3) as nat;
        let k = keep_count(s, limit);
        lemma_keep_fits(s, limit);
        let head = s.take(k as int);
        let dots = seq!['.', '.', '.'];
        lemma_utf8_len_concat(head, dots);
        assert(encode_utf8(dots).len() == 3) by {
            reveal_with_fuel(encode_utf8, 4);
            assert(dots.drop_first() =~= seq!['.', '.']);
            assert(dots.drop_first().drop_first() =~= seq!['.']);
            assert(dots.drop_first().drop_first().drop_first() =~= Seq::<char>::empty());
            assert(('.' as u32) < 0x80);
        }
        assert(head + dots =~= spec_truncate_str(s, max));
    }
}

/// Encoding distributes over concatenation.
proof fn lemma_utf8_len_concat(a: Seq<char>, b: Seq<char>)
    ensures
        encode_utf8(a + b) == encode_utf8(a) + encode_utf8(b),
    decreases a.len(),
{
    if a.len() == 0 {
        assert(a + b =~= b);
        assert(encode_utf8(a) =~= Seq::<u8>::empty());
        assert(encode_utf8(a + b) =~= encode_utf8(a) + encode_utf8(b));
    } else {
        assert((a + b)[0] == a[0]);
        assert((a + b).drop_first() =~= a.drop_first() + b);
        lemma_utf8_len_concat(a.drop_first(), b);
        assert(encode_utf8(a + b) =~= encode_utf8(a) + encode_utf8(b));
    }
}

/// Truncate a string to `max_len` bytes, appending `"..."` if it was cut;
/// always cuts on a character boundary.
pub fn truncate_str(s: &str, max_len: usize) -> (r: String)
    ensures
        r@ == spec_truncate_str(s@, max_len as nat),
{
    let n = s.unicode_len();
    let mut total: u128 = 0;
    let mut j: usize = 0;
    proof {
        assert(s@.take(0) =~= Seq::<char>::empty());
    }
    while j < n
        invariant
            j <= n,
            (n as nat) == s@.len(),
            (total as nat) == utf8_len(s@.take(j as int)),
            total <= 4 * (j as u128),
        decreases n - j,
    {
        let w = char_utf8_len(s.get_char(j));
        proof {
            assert(s@.take(j as int + 1) =~= s@.take(j as int).push(s@[j as int]));
            lemma_encode_utf8_snoc(s@.take(j as int), s@[j as int]);
        }
        total = total + (w as u128);
        j = j + 1;
    }
    proof {
        assert(s@.take(n as int) =~= s@);
    }
    if total <= max_len as u128 {
        return s.to_owned();
    }
    let limit: usize = if max_len >= 3 {
        max_len - 3
    } else {
        0
    };
    let mut k: usize = 0;
    let mut bl: usize = 0;
    proof {
        assert(s@.take(0) =~= Seq::<char>::empty());
    }
    loop
        invariant_except_break
            k <= n,
            (n as nat) == s@.len(),
            (bl as nat) == utf8_len(s@.take(k as int)),
            bl <= limit,
        ensures
            k <= s@.len(),
            utf8_len(s@.take(k as int)) <= limit,
            k == s@.len() || utf8_len(s@.take(k as int + 1)) > limit,
        decreases n - k,
    {
        if k >= n {
            break ;
        }
        let c = s.get_char(k);
        let w = char_utf8_len(c);
        proof {
            assert(s@.take(k as int + 1) =~= s@.take(k as int).push(s@[k as int]));
            lemma_encode_utf8_snoc(s@.take(k as int), s@[k as int]);
        }
        if (w as usize) > limit - bl {
            break ;
        }
        bl = bl + (w as usize);
        k = k + 1;
    }
    proof {
        lemma_keep_count_is(s@, limit as nat, k as nat);
    }
    let head = s.substring_char(0, k);
    let mut r = head.to_owned();
    r.append("...");
    proof {
        reveal_strlit("...");
        assert(r@ =~= spec_truncate_str(s@, max_len as nat));
    }
    r
}

/// Why an output filename was rejected.
#[derive(Debug, Clone, Copy, PartialEq, Eq)]
pub enum FilenameError {
    /// The name was empty after trimming.
    Empty,
    /// A path component was `..`.
    Traversal,
    /// The path was absolute.
    Absolute,
}

/// Whether some complete `/`-separated component of the sequence is `..`.
pub open spec fn has_dotdot_segment(s: Seq<char>) -> bool {
    exists|i: int|
        0 <= i && i + 2 <= s.len() && #[trigger] s[i] == '.' && s[i + 1] == '.' && (i == 0 || s[i
            - 1] == '/') && (i + 2 == s.len() || s[i + 2] == '/')
}

/// The result `sanitize_filename` owes for each input: the trimmed name, or
/// the first applicable rejection.
pub open spec fn spec_sanitize_filename(s: Seq<char>) -> Result<Seq<char>, FilenameError> {
    let t = trimmed(s);
    if t.len() == 0 {
        Err(FilenameError::Empty)
    } else if t[0] == '/' {
        Err(FilenameError::Absolute)
    } else if has_dotdot_segment(t) {
        Err(FilenameError::Traversal)
    } else {
        Ok(t)
    }
}

/// Validate an output filename: it must be non-empty, relative, and free of
/// `..` components; the trimmed name is returned.
pub fn sanitize_filename(name: &str) -> (r: Result<String, FilenameError>)
    ensures
        r is Ok <==> spec_sanitize_filename(name@) is Ok,
        r matches Ok(t) ==> t@ == spec_sanitize_filename(name@)->Ok_0,
        r matches Err(e) ==> Err::<Seq<char>, _>(e) == spec_sanitize_filename(name@),
{
    let t = trim_chars(name);
    let len = t.len();
    if len == 0 {
        return Err(FilenameError::Empty);
    }
    if t[0] == '/' {
        return Err(FilenameError::Absolute);
    }
    let mut i: usize = 0;
    while i < len
        invariant
            len == t@.len(),
            i <= len,
            len >= 1,
            t@ == trimmed(name@),
            t@[0] != '/',
            forall|j: int|
                0 <= j < i ==> !(j + 2 <= t@.len() && #[trigger] t@[j] == '.' && t@[j + 1] == '.'
                    && (j == 0 || t@[j - 1] == '/') && (j + 2 == t@.len() || t@[j + 2] == '/')),
        decreases len - i,
    {
        if len >= 2 && i <= len - 2 && t[i] == '.' && t[i + 1] == '.' && (i == 0 || t[i - 1]
            == '/') && (i + 2 == len || t[i + 2] == '/') {
            proof {
                let w = i as int;
                assert(0 <= w && w + 2 <= t@.len() && t@[w] == '.' && t@[w + 1] == '.' && (w == 0
                    || t@[w - 1] == '/') && (w + 2 == t@.len() || t@[w + 2] == '/'));
                assert(has_dotdot_segment(t@));
            }
            return Err(FilenameError::Traversal);
        }
        i = i + 1;
    }
    proof {
        assert(!has_dotdot_segment(t@));
    }
    let mut out = String::new();
    let mut j: usize = 0;
    while j < len
        invariant
            len == t@.len(),
            j <= len,
            out@ == t@.take(j as int),
        decreases len - j,
    {
        push_char(&mut out, t[j]);
        proof {
            assert(t@.take(j + 1) =~= t@.take(j as int).push(t@[j as int]));
        }
        j = j + 1;
    }
    proof {
        assert(t@.take(len as int) =~= t@);
    }
    Ok(out)
}

/// Append one character to a string.
pub(crate) fn push_char(s: &mut String, c: char)
    ensures
        final(s)@ == old(s)@.push(c),
{
    let one: String = single_char_string(c);
    s.append(one.as_str());
    proof {
        assert(old(s)@ + seq![c] =~= old(s)@.push(c));
    }
}

/// A vector of characters as a string.
pub fn chars_to_string(v: &Vec<char>) -> (r: String)
    ensures
        r@ == v@,
{
    let mut r = String::new();
    let mut i: usize = 0;
    while i < v.len()
        invariant
            i <= v@.len(),
            r@ == v@.take(i as int),
        decreases v@.len() - i,
    {
        let one = single_char_string(v[i]);
        r.append(one.as_str());
        proof {
            assert(v@.take(i + 1) =~= v@.take(i as int).push(v@[i as int]));
            assert(r@ =~= v@.take(i + 1));
        }
        i = i + 1;
    }
    proof {
        assert(v@.take(v@.len() as int) =~= v@);
    }
    r
}

/// The characters of a string as a vector.
pub fn string_chars(s: &str) -> (r: Vec<char>)
    ensures
        r@ == s@,
{
    let n = s.unicode_len();
    let mut r: Vec<char> = Vec::new();
    let mut i: usize = 0;
    while i < n
        invariant
            i <= n,
            (n as nat) == s@.len(),
            r@ == s@.take(i as int),
        decreases n - i,
    {
        r.push(s.get_char(i));
        proof {
            assert(s@.take(i + 1) =~= s@.take(i as int).push(s@[i as int]));
        }
        i = i + 1;
    }
    proof {
        assert(s@.take(n as int) =~= s@);
    }
    r
}

/// The trimmed characters of a string: ASCII whitespace is removed from both
/// ends.
pub fn trim_chars(s: &str) -> (r: Vec<char>)
    ensures
        r@ == trimmed(s@),
{
    let cs = string_chars(s);
    let len = cs.len();
    let mut a: usize = 0;
    while a < len && is_ascii_space(cs[a])
        invariant
            a <= len,
            len == cs@.len(),
            cs@ == s@,
            forall|i: int| 0 <= i < a ==> is_space_char(cs@[i]),
        decreases len - a,
    {
        a = a + 1;
    }
    let mut b: usize = len;
    while b > a && is_ascii_space(cs[b - 1])
        invariant
            a <= b <= len,
            len == cs@.len(),
            cs@ == s@,
            forall|i: int| 0 <= i < a ==> is_space_char(cs@[i]),
            forall|i: int| b <= i < len ==> is_space_char(cs@[i]),
        decreases b,
    {
        b = b - 1;
    }
    let mut r: Vec<char> = Vec::new();
    let mut i: usize = a;
    while i < b
        invariant
            a <= i <= b <= len,
            len == cs@.len(),
            cs@ == s@,
            r@ == cs@.subrange(a as int, i as int),
        decreases b - i,
    {
        r.push(cs[i]);
        proof {
            assert(cs@.subrange(a as int, i + 1) =~= cs@.subrange(a as int, i as int).push(
                cs@[i as int],
            ));
        }
        i = i + 1;
    }
    proof {
        lemma_trimmed_subrange(s@, a as int, b as int);
    }
    r
}

/// `trimmed` is the subrange between the outermost non-whitespace
/// characters.
proof fn lemma_trimmed_subrange(s: Seq<char>, a: int, b: int)
    requires
        0 <= a <= b <= s.len(),
        forall|i: int| 0 <= i < a ==> is_space_char(s[i]),
        forall|i: int| b <= i < s.len() ==> is_space_char(s[i]),
        a == b || (!is_space_char(s[a]) && !is_space_char(s[b - 1])),
    ensures
        trimmed(s) == s.subrange(a, b),
    decreases s.len(),
{
    if s.len() == 0 {
        assert(s.subrange(a, b) =~= s);
    } else if is_space_char(s[0]) {
        if a == 0 && b == 0 {
            lemma_trimmed_subrange(s.drop_first(), 0, 0);
            assert(s.subrange(0, 0) =~= s.drop_first().subrange(0, 0));
        } else {
            assert(a >= 1);
            lemma_trimmed_subrange(s.drop_first(), a - 1, b - 1);
            assert(s.subrange(a, b) =~= s.drop_first().subrange(a - 1, b - 1));
        }
    } else if is_space_char(s.last()) {
        assert(b < s.len());
        lemma_trimmed_subrange(s.drop_last(), a, b);
        assert(s.subrange(a, b) =~= s.drop_last().subrange(a, b));
    } else {
        assert(a == 0);
        assert(b == s.len());
        assert(s.subrange(0, s.len() as int) =~= s);
    }
}

/// A number parse or range failure.
#[derive(Debug, Clone, Copy, PartialEq, Eq)]
pub struct NumberError;

/// Whether every character of the sequence is a decimal digit.
pub open spec fn all_digits(s: Seq<char>) -> bool {
    forall|i: int| 0 <= i < s.len() ==> is_digit_char(s[i])
}

/// The value of a sequence of decimal digits, most significant first.
pub open spec fn digits_value(s: Seq<char>) -> nat
    decreases s.len(),
{
    if s.len() == 0 {
        0
    } else {
        digits_value(s.drop_last()) * 10 + digit_value(s.last())
    }
}

/// What `u64` parsing owes: an optional leading `+`, then at least one
/// digit, with a value that fits.
pub open spec fn parse_u64_chars(s: Seq<char>) -> Option<u64> {
    let body = if s.len() > 0 && s[0] == '+' {
        s.drop_first()
    } else {
        s
    };
    if body.len() > 0 && all_digits(body) && digits_value(body) <= u64::MAX {
        Some(digits_value(body) as u64)
    } else {
        None
    }
}

/// A digit prefix is never worth more than the whole.
proof fn lemma_digits_value_prefix_le(s: Seq<char>, j: int)
    requires
        0 <= j <= s.len(),
    ensures
        digits_value(s.take(j)) <= digits_value(s),
    decreases s.len() - j,
{
    if j == s.len() {
        assert(s.take(j) =~= s);
    } else {
        assert(s.take(j + 1).drop_last() =~= s.take(j));
        assert(digits_value(s.take(j + 1)) == digits_value(s.take(j)) * 10 + digit_value(
            s.take(j + 1).last(),
        ));
        lemma_digits_value_prefix_le(s, j + 1);
    }
}

/// Parse the characters of `t` between `start` and `end` as a `u64`.
pub(crate) fn parse_u64_in(t: &Vec<char>, start: usize, end: usize) -> (r: Result<u64, NumberError>)
    requires
        start <= end <= t@.len(),
    ensures
        r is Ok <==> parse_u64_chars(t@.subrange(start as int, end as int)) is Some,
        r matches Ok(v) ==> Some(v) == parse_u64_chars(t@.subrange(start as int, end as int)),
{
    let ghost whole = t@.subrange(start as int, end as int);
    let body_start: usize = if start < end && t[start] == '+' {
        start + 1
    } else {
        start
    };
    let ghost body = t@.subrange(body_start as int, end as int);
    proof {
        if start < end && t@[start as int] == '+' {
            assert(whole.drop_first() =~= body);
        }
    }
    if body_start == end {
        return Err(NumberError);
    }
    let mut acc: u64 = 0;
    let mut i: usize = body_start;
    proof {
        assert(body.take(0) =~= Seq::<char>::empty());
    }
    while i < end
        invariant
            body_start <= i <= end <= t@.len(),
            body == t@.subrange(body_start as int, end as int),
            body.len() > 0,
            parse_u64_chars(t@.subrange(start as int, end as int)) == (if all_digits(body)
                && digits_value(body) <= u64::MAX {
                Some(digits_value(body) as u64)
            } else {
                None::<u64>
            }),
            all_digits(body.take(i - body_start)),
            (acc as nat) == digits_value(body.take(i - body_start)),
        decreases end - i,
    {
        let c = t[i];
        proof {
            assert(body.take(i + 1 - body_start).drop_last() =~= body.take(i - body_start));
            assert(body.take(i + 1 - body_start).last() == body[i - body_start]);
        }
        if !is_ascii_digit_char(c) {
            proof {
                assert(body[i - body_start] == c);
                assert(!is_digit_char(body[i - body_start]));
                assert(!all_digits(body));
            }
            return Err(NumberError);
        }
        let d = decimal_digit_value(c);
        let next: u128 = (acc as u128) * 10 + (d as u128);
        if next > 0xffff_ffff_ffff_ffffu128 {
            proof {
                lemma_digits_value_prefix_le(body, i + 1 - body_start);
            }
            return Err(NumberError);
        }
        acc = next as u64;
        i = i + 1;
    }
    proof {
        assert(body.take(end - body_start) =~= body);
    }
    Ok(acc)
}

/// Scale a parsed value by a unit multiplier, rejecting overflow.
fn scale_by(v: u64, m: u64) -> (r: Result<u64, NumberError>)
    requires
        m > 0,
    ensures
        r is Ok <==> (v as nat) * (m as nat) <= u64::MAX,
        r matches Ok(x) ==> (x as nat) == (v as nat) * (m as nat),
{
    proof {
        vstd::arithmetic::mul::lemma_mul_upper_bound(
            v as int,
            0xffff_ffff_ffff_ffff,
            m as int,
            0xffff_ffff_ffff_ffff,
        );
        assert((0xffff_ffff_ffff_ffff as int) * (0xffff_ffff_ffff_ffff as int)
            < 0x1_0000_0000_0000_0000_0000_0000_0000_0000) by (nonlinear_arith);
    }
    let wide: u128 = (v as u128) * (m as u128);
    if wide > 0xffff_ffff_ffff_ffffu128 {
        Err(NumberError)
    } else {
        Ok(wide as u64)
    }
}

/// The value `parse_speed` owes for each input: trim, uppercase, an
/// optional `K`/`M`/`G` suffix scaling by the matching power of 1024, and a
/// `u64` parse of the rest; `None` where parsing fails or the scaled value
/// overflows.
pub open spec fn spec_parse_speed(s: Seq<char>) -> Option<u64> {
    let t = uppered(trimmed(s));
    if t.len() > 0 && t.last() == 'K' {
        spec_scaled(parse_u64_chars(t.drop_last()), 1024)
    } else if t.len() > 0 && t.last() == 'M' {
        spec_scaled(parse_u64_chars(t.drop_last()), 0x100000)
    } else if t.len() > 0 && t.last() == 'G' {
        spec_scaled(parse_u64_chars(t.drop_last()), 0x40000000)
    } else {
        parse_u64_chars(t)
    }
}

/// A parsed value scaled by a unit, where both steps succeeded.
pub open spec fn spec_scaled(v: Option<u64>, m: nat) -> Option<u64> {
    match v {
        Some(x) => if (x as nat) * m <= u64::MAX {
            Some(((x as nat) * m) as u64)
        } else {
            None
        },
        None => None,
    }
}

/// The value `parse_size` owes: as `spec_parse_speed`, except that the part
/// before the suffix is trimmed again before parsing.
pub open spec fn spec_parse_size(s: Seq<char>) -> Option<u64> {
    let t = uppered(trimmed(s));
    if t.len() > 0 && t.last() == 'K' {
        spec_scaled(parse_u64_chars(trimmed(t.drop_last())), 1024)
    } else if t.len() > 0 && t.last() == 'M' {
        spec_scaled(parse_u64_chars(trimmed(t.drop_last())), 0x100000)
    } else if t.len() > 0 && t.last() == 'G' {
        spec_scaled(parse_u64_chars(trimmed(t.drop_last())), 0x40000000)
    } else {
        parse_u64_chars(t)
    }
}

/// Uppercased copy of a character vector.
fn upper_chars(v: &Vec<char>) -> (r: Vec<char>)
    ensures
        r@ == uppered(v@),
{
    let mut r: Vec<char> = Vec::new();
    let mut i: usize = 0;
    while i < v.len()
        invariant
            i <= v@.len(),
            r@ == uppered(v@).take(i as int),
        decreases v@.len() - i,
    {
        r.push(ascii_upper_char(v[i]));
        proof {
            assert(uppered(v@).take(i + 1) =~= uppered(v@).take(i as int).push(
                upper_char(v@[i as int]),
            ));
        }
        i = i + 1;
    }
    proof {
        assert(uppered(v@).take(v@.len() as int) =~= uppered(v@));
    }
    r
}

/// Lowercased copy of a character vector.
pub fn lower_chars(v: &Vec<char>) -> (r: Vec<char>)
    ensures
        r@ == lowered(v@),
{
    let mut r: Vec<char> = Vec::new();
    let mut i: usize = 0;
    while i < v.len()
        invariant
            i <= v@.len(),
            r@ == lowered(v@).take(i as int),
        decreases v@.len() - i,
    {
        r.push(ascii_lower_char(v[i]));
        proof {
            assert(lowered(v@).take(i + 1) =~= lowered(v@).take(i as int).push(
                lower_char(v@[i as int]),
            ));
        }
        i = i + 1;
    }
    proof {
        assert(lowered(v@).take(v@.len() as int) =~= lowered(v@));
    }
    r
}

/// Parse a speed string with an optional `K`/`M`/`G` suffix into bytes per
/// second.
pub fn parse_speed(s: &str) -> (r: Result<u64, NumberError>)
    ensures
        r is Ok <==> spec_parse_speed(s@) is Some,
        r matches Ok(v) ==> Some(v) == spec_parse_speed(s@),
{
    let t = upper_chars(&trim_chars(s));
    let len = t.len();
    if len > 0 && t[len - 1] == 'K' {
        proof {
            assert(t@.subrange(0, len - 1) =~= t@.drop_last());
        }
        match parse_u64_in(&t, 0, len - 1) {
            Ok(v) => scale_by(v, 1024),
            Err(e) => Err(e),
        }
    } else if len > 0 && t[len - 1] == 'M' {
        proof {
            assert(t@.subrange(0, len - 1) =~= t@.drop_last());
        }
        match parse_u64_in(&t, 0, len - 1) {
            Ok(v) => scale_by(v, 0x100000),
            Err(e) => Err(e),
        }
    } else if len > 0 && t[len - 1] == 'G' {
        proof {
            assert(t@.subrange(0, len - 1) =~= t@.drop_last());
        }
        match parse_u64_in(&t, 0, len - 1) {
            Ok(v) => scale_by(v, 0x40000000),
            Err(e) => Err(e),
        }
    } else {
        proof {
            assert(t@.subrange(0, len as int) =~= t@);
        }
        parse_u64_in(&t, 0, len)
    }
}

/// Parse a size string with an optional `K`/`M`/`G` suffix, allowing
/// whitespace between the number and the suffix.
pub fn parse_size(s: &str) -> (r: Result<u64, NumberError>)
    ensures
        r is Ok <==> spec_parse_size(s@) is Some,
        r matches Ok(v) ==> Some(v) == spec_parse_size(s@),
{
    let t = upper_chars(&trim_chars(s));
    let len = t.len();
    if len > 0 && (t[len - 1] == 'K' || t[len - 1] == 'M' || t[len - 1] == 'G') {
        let m: u64 = if t[len - 1] == 'K' {
            1024
        } else if t[len - 1] == 'M' {
            0x100000
        } else {
            0x40000000
        };
        let mut head: Vec<char> = Vec::new();
        let mut i: usize = 0;
        while i < len - 1
            invariant
                len == t@.len(),
                len >= 1,
                i <= len - 1,
                head@ == t@.take(i as int),
            decreases len - 1 - i,
        {
            head.push(t[i]);
            proof {
                assert(t@.take(i + 1) =~= t@.take(i as int).push(t@[i as int]));
            }
            i = i + 1;
        }
        proof {
            assert(t@.take(len - 1) =~= t@.drop_last());
        }
        let num = trim_vec(&head);
        proof {
            assert(num@.subrange(0, num@.len() as int) =~= num@);
        }
        match parse_u64_in(&num, 0, num.len()) {
            Ok(v) => scale_by(v, m),
            Err(e) => Err(e),
        }
    } else {
        proof {
            assert(t@.subrange(0, len as int) =~= t@);
        }
        parse_u64_in(&t, 0, len)
    }
}

/// The trimmed copy of a character vector.
pub(crate) fn trim_vec(cs: &Vec<char>) -> (r: Vec<char>)
    ensures
        r@ == trimmed(cs@),
{
    let len = cs.len();
    let mut a: usize = 0;
    while a < len && is_ascii_space(cs[a])
        invariant
            a <= len,
            len == cs@.len(),
            forall|i: int| 0 <= i < a ==> is_space_char(cs@[i]),
        decreases len - a,
    {
        a = a + 1;
    }
    let mut b: usize = len;
    while b > a && is_ascii_space(cs[b - 1])
        invariant
            a <= b <= len,
            len == cs@.len(),
            forall|i: int| 0 <= i < a ==> is_space_char(cs@[i]),
            forall|i: int| b <= i < len ==> is_space_char(cs@[i]),
        decreases b,
    {
        b = b - 1;
    }
    let mut r: Vec<char> = Vec::new();
    let mut i: usize = a;
    while i < b
        invariant
            a <= i <= b <= len,
            len == cs@.len(),
            r@ == cs@.subrange(a as int, i as int),
        decreases b - i,
    {
        r.push(cs[i]);
        proof {
            assert(cs@.subrange(a as int, i + 1) =~= cs@.subrange(a as int, i as int).push(
                cs@[i as int],
            ));
        }
        i = i + 1;
    }
    proof {
        lemma_trimmed_subrange(cs@, a as int, b as int);
    }
    r
}

/// Relies on `char::to_string`: the returned string holds exactly that one
/// character.
#[verifier::external_body]
fn single_char_string(c: char) -> (r: String)
    ensures
        r@ == seq![c],
{
    c.to_string()
}

} // verus!
