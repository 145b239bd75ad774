//! Literal decoders: pure functions from the textual span of a matched
//! literal node to its value.
//!
//! A decode failure never aborts: it is reported as a [`DecodeError`] and
//! the conversion protocol turns it into a fatal conversion failure.

use vstd::prelude::*;

use crate::errors::DecodeError;

verus! {

/// The numeric value of `c` as a digit of base `radix`, or `-1` when `c`
/// is no such digit.  Decimal digits and both letter cases are digits,
/// exactly while their value is below the radix.
pub open spec fn digit_value_int(c: char, radix: u32) -> int {
    let u = c as u32;
    let d = if ('0' as u32) <= u <= ('9' as u32) {
        u - ('0' as u32)
    } else if ('a' as u32) <= u <= ('z' as u32) {
        u - ('a' as u32) + 10
    } else if ('A' as u32) <= u <= ('Z' as u32) {
        u - ('A' as u32) + 10
    } else {
        -1
    };
    if 0 <= d < radix {
        d
    } else {
        -1
    }
}

/// Whether `s` is a non-empty run of digits of base `radix`.
pub open spec fn is_radix_digits(s: Seq<char>, radix: u32) -> bool {
    s.len() > 0 && forall|i: int| 0 <= i < s.len() ==> digit_value_int(s[i], radix) >= 0
}

/// The base-`radix` interpretation of a digit string, most significant
/// digit first.
pub open spec fn radix_digits_val(s: Seq<char>, radix: u32) -> int
    decreases s.len(),
{
    if s.len() == 0 {
        0
    } else {
        radix_digits_val(s.drop_last(), radix) * radix + digit_value_int(s.last(), radix)
    }
}

/// The digit part of an integer literal's text: what follows one leading
/// sign character, if there is one.
pub open spec fn int_text_digits(s: Seq<char>) -> Seq<char> {
    if s.len() > 0 && (s[0] == '+' || s[0] == '-') {
        s.drop_first()
    } else {
        s
    }
}

/// Whether the literal's text carries a leading minus sign.
pub open spec fn int_text_negative(s: Seq<char>) -> bool {
    s.len() > 0 && s[0] == '-'
}

/// Whether the literal's text is well-formed in base `radix`: after an
/// optional sign, a non-empty run of digits of that base.
pub open spec fn int_text_wf(s: Seq<char>, radix: u32) -> bool {
    is_radix_digits(int_text_digits(s), radix)
}

/// The signed mathematical value of a well-formed integer literal text.
pub open spec fn int_text_value(s: Seq<char>, radix: u32) -> int {
    if int_text_negative(s) {
        -radix_digits_val(int_text_digits(s), radix)
    } else {
        radix_digits_val(int_text_digits(s), radix)
    }
}

/// A valid digit string has a non-negative value.
proof fn lemma_radix_digits_val_nonneg(s: Seq<char>, radix: u32)
    requires
        forall|i: int| 0 <= i < s.len() ==> digit_value_int(s[i], radix) >= 0,
    ensures
        radix_digits_val(s, radix) >= 0,
    decreases s.len(),
{
    if s.len() > 0 {
        lemma_radix_digits_val_nonneg(s.drop_last(), radix);
        assert(radix_digits_val(s.drop_last(), radix) * radix >= 0) by (nonlinear_arith)
            requires
                radix_digits_val(s.drop_last(), radix) >= 0,
                radix >= 0,
        ;
    }
}

/// Extending a valid digit string can only grow its value.
proof fn lemma_radix_digits_val_prefix_le(s: Seq<char>, radix: u32, k: int)
    requires
        radix >= 1,
        0 <= k <= s.len(),
        forall|i: int| 0 <= i < s.len() ==> digit_value_int(s[i], radix) >= 0,
    ensures
        radix_digits_val(s.subrange(0, k), radix) <= radix_digits_val(s, radix),
    decreases s.len() - k,
{
    if k == s.len() {
        assert(s.subrange(0, k) =~= s);
    } else {
        lemma_radix_digits_val_prefix_le(s, radix, k + 1);
        let p = s.subrange(0, k);
        let q = s.subrange(0, k + 1);
        assert(q.drop_last() =~= p);
        lemma_radix_digits_val_nonneg(p, radix);
        assert(radix_digits_val(p, radix) * radix >= radix_digits_val(p, radix)) by (nonlinear_arith)
            requires
                radix_digits_val(p, radix) >= 0,
                radix >= 1,
        ;
    }
}

/// The numeric value of `c` as a digit of base `radix`, when it is one.
fn digit_of(c: char, radix: u32) -> (r: Option<u32>)
    requires
        2 <= radix <= 36,
    ensures
        digit_value_int(c, radix) >= 0 <==> r is Some,
        r is Some ==> r == Some(digit_value_int(c, radix) as u32),
{
    let u = c as u32;
    let d: u32 = if '0' as u32 <= u && u <= '9' as u32 {
        u - '0' as u32
    } else if 'a' as u32 <= u && u <= 'z' as u32 {
        u - 'a' as u32 + 10
    } else if 'A' as u32 <= u && u <= 'Z' as u32 {
        u - 'A' as u32 + 10
    } else {
        u32::MAX
    };
    if d < radix {
        Some(d)
    } else {
        None
    }
}

/// Decode an integer literal's text in the given base into a signed
/// 64-bit value: one optional sign character, then digits of the base.
///
/// Success and each failure are exact: empty text, a malformed digit
/// part, and each direction of overflow are told apart.
#[verifier::rlimit(60)]
pub fn parse_i64_radix(s: &str, radix: u32) -> (r: Result<i64, DecodeError>)
    requires
        2 <= radix <= 36,
    ensures
        s@.len() == 0 ==> r == Err::<i64, DecodeError>(DecodeError::Empty),
        s@.len() > 0 && !int_text_wf(s@, radix) ==> r == Err::<i64, DecodeError>(
            DecodeError::InvalidDigit,
        ),
        int_text_wf(s@, radix) && int_text_value(s@, radix) > i64::MAX ==> r == Err::<
            i64,
            DecodeError,
        >(DecodeError::PosOverflow),
        int_text_wf(s@, radix) && int_text_value(s@, radix) < i64::MIN ==> r == Err::<
            i64,
            DecodeError,
        >(DecodeError::NegOverflow),
        int_text_wf(s@, radix) && i64::MIN <= int_text_value(s@, radix) <= i64::MAX ==> r == Ok::<
            i64,
            DecodeError,
        >(int_text_value(s@, radix) as i64),
{
    let n = s.unicode_len();
    if n == 0 {
        return Err(DecodeError::Empty);
    }
    let c0 = s.get_char(0);
    let neg = c0 == '-';
    let start: usize = if c0 == '-' || c0 == '+' {
        1
    } else {
        0
    };
    let ghost ds = int_text_digits(s@);
    proof {
        assert(ds =~= s@.subrange(start as int, n as int));
    }
    if start == n {
        return Err(DecodeError::InvalidDigit);
    }
    let limit: u64 = if neg {
        9223372036854775808u64
    } else {
        9223372036854775807u64
    };
    let mut mag: u64 = 0;
    let mut i: usize = start;
    while i < n
        invariant
            2 <= radix <= 36,
            start <= i <= n,
            start <= 1,
            n == s@.len(),
            ds == int_text_digits(s@),
            ds =~= s@.subrange(start as int, n as int),
            forall|j: int| 0 <= j < i - start ==> digit_value_int(ds[j], radix) >= 0,
            mag == radix_digits_val(ds.subrange(0, i - start), radix),
            mag <= limit,
            limit == if neg {
                9223372036854775808u64
            } else {
                9223372036854775807u64
            },
            neg == int_text_negative(s@),
        decreases n - i,
    {
        let c = s.get_char(i);
        proof {
            assert(ds[i - start] == s@[i as int]);
        }
        let d = match digit_of(c, radix) {
            Some(d) => d,
            None => {
                proof {
                    assert(digit_value_int(ds[i - start], radix) < 0);
                    assert(!is_radix_digits(ds, radix));
                }
                return Err(DecodeError::InvalidDigit);
            },
        };
        let ghost pre = ds.subrange(0, i - start);
        let ghost ext = ds.subrange(0, i + 1 - start);
        proof {
            assert(ext.drop_last() =~= pre);
            assert(ext.last() == ds[i - start]);
        }
        let stepped = match mag.checked_mul(radix as u64) {
            Some(m) => m.checked_add(d as u64),
            None => None,
        };
        let over = match stepped {
            Some(m2) => m2 > limit,
            None => true,
        };
        if over {
            proof {
                assert(radix_digits_val(ext, radix) > limit);
            }
            if looks_all_digits(s, start, n, radix) {
                proof {
                    assert(forall|j: int|
                        0 <= j < ds.len() ==> digit_value_int(ds[j], radix) >= 0) by {
                        assert(forall|j: int| 0 <= j < ds.len() ==> ds[j] == s@[start + j]);
                    }
                    assert(is_radix_digits(ds, radix));
                    lemma_radix_digits_val_prefix_le(ds, radix, i + 1 - start);
                    assert(radix_digits_val(ds, radix) > limit);
                }
                if neg {
                    return Err(DecodeError::NegOverflow);
                } else {
                    return Err(DecodeError::PosOverflow);
                }
            } else {
                proof {
                    let j = choose|j: int|
                        start <= j < n && !(digit_value_int(s@[j], radix) >= 0);
                    assert(ds[j - start] == s@[j]);
                    assert(!is_radix_digits(ds, radix));
                }
                return Err(DecodeError::InvalidDigit);
            }
        }
        mag = stepped.unwrap();
        i = i + 1;
    }
    proof {
        assert(ds.subrange(0, n - start) =~= ds);
        lemma_radix_digits_val_nonneg(ds, radix);
    }
    if neg {
        if mag == 9223372036854775808u64 {
            Ok(i64::MIN)
        } else {
            Ok(-(mag as i64))
        }
    } else {
        Ok(mag as i64)
    }
}

/// Whether every character of `s` in `start..end` is a digit of the base.
fn looks_all_digits(s: &str, start: usize, end: usize, radix: u32) -> (r: bool)
    requires
        2 <= radix <= 36,
        start <= end <= s@.len(),
    ensures
        r == (forall|j: int| start <= j < end ==> digit_value_int(s@[j], radix) >= 0),
{
    let mut i: usize = start;
    while i < end
        invariant
            2 <= radix <= 36,
            start <= i <= end <= s@.len(),
            forall|j: int| start <= j < i ==> digit_value_int(s@[j], radix) >= 0,
        decreases end - i,
    {
        if digit_of(s.get_char(i), radix).is_none() {
            return false;
        }
        i = i + 1;
    }
    true
}

/// What decoding a two-character radix-prefixed literal must return:
/// stripping the first two characters blindly, then reading the rest as
/// an integer literal of the base; text too short for the prefix is its
/// own failure.
pub open spec fn prefixed_decode_result(s: Seq<char>, radix: u32, r: Result<
    i64,
    DecodeError,
>) -> bool {
    if s.len() < 2 {
        r == Err::<i64, DecodeError>(DecodeError::MissingPrefix)
    } else {
        let t = s.skip(2);
        &&& (t.len() == 0 ==> r == Err::<i64, DecodeError>(DecodeError::Empty))
        &&& (t.len() > 0 && !int_text_wf(t, radix) ==> r == Err::<i64, DecodeError>(
            DecodeError::InvalidDigit,
        ))
        &&& (int_text_wf(t, radix) && int_text_value(t, radix) > i64::MAX ==> r == Err::<
            i64,
            DecodeError,
        >(DecodeError::PosOverflow))
        &&& (int_text_wf(t, radix) && int_text_value(t, radix) < i64::MIN ==> r == Err::<
            i64,
            DecodeError,
        >(DecodeError::NegOverflow))
        &&& (int_text_wf(t, radix) && i64::MIN <= int_text_value(t, radix) <= i64::MAX ==> r
            == Ok::<i64, DecodeError>(int_text_value(t, radix) as i64))
    }
}

/// Strip the fixed two-character radix prefix and decode the remainder
/// in the given base.
fn strip_prefix_parse(s: &str, radix: u32) -> (r: Result<i64, DecodeError>)
    requires
        2 <= radix <= 36,
    ensures
        prefixed_decode_result(s@, radix, r),
{
    let n = s.unicode_len();
    if n < 2 {
        return Err(DecodeError::MissingPrefix);
    }
    let rest = s.substring_char(2, n);
    proof {
        assert(rest@ =~= s@.skip(2));
    }
    parse_i64_radix(rest, radix)
}

/// Decode a binary integer literal: two prefix characters, then binary
/// digits.
pub fn bin_str_to_int(s: &str) -> (r: Result<i64, DecodeError>)
    ensures
        prefixed_decode_result(s@, 2, r),
{
    strip_prefix_parse(s, 2)
}

/// Decode an octal integer literal: two prefix characters, then octal
/// digits.
pub fn oct_str_to_int(s: &str) -> (r: Result<i64, DecodeError>)
    ensures
        prefixed_decode_result(s@, 8, r),
{
    strip_prefix_parse(s, 8)
}

/// Decode a hexadecimal integer literal: two prefix characters, then
/// hexadecimal digits.
pub fn hex_str_to_int(s: &str) -> (r: Result<i64, DecodeError>)
    ensures
        prefixed_decode_result(s@, 16, r),
{
    strip_prefix_parse(s, 16)
}

/// How many leading `q` characters `s` carries.
pub open spec fn count_leading(s: Seq<char>, q: char) -> int
    decreases s.len(),
{
    if s.len() == 0 || s[0] != q {
        0
    } else {
        1 + count_leading(s.drop_first(), q)
    }
}

/// How many trailing `q` characters `s` carries.
pub open spec fn count_trailing(s: Seq<char>, q: char) -> int
    decreases s.len(),
{
    if s.len() == 0 || s.last() != q {
        0
    } else {
        1 + count_trailing(s.drop_last(), q)
    }
}

/// `s` with every leading and every trailing `q` character removed.
pub open spec fn trim_matching(s: Seq<char>, q: char) -> Seq<char> {
    if count_leading(s, q) == s.len() {
        Seq::empty()
    } else {
        s.subrange(count_leading(s, q), s.len() - count_trailing(s, q))
    }
}

/// A run of exactly `k` leading `q` characters pins `count_leading`.
proof fn lemma_leading_unique(s: Seq<char>, q: char, k: int)
    requires
        0 <= k <= s.len(),
        forall|j: int| 0 <= j < k ==> s[j] == q,
        k < s.len() ==> s[k] != q,
    ensures
        count_leading(s, q) == k,
    decreases s.len(),
{
    if k == 0 {
    } else {
        assert(s[0] == q);
        lemma_leading_unique(s.drop_first(), q, k - 1);
    }
}

/// A run of exactly `k` trailing `q` characters pins `count_trailing`.
proof fn lemma_trailing_unique(s: Seq<char>, q: char, k: int)
    requires
        0 <= k <= s.len(),
        forall|j: int| s.len() - k <= j < s.len() ==> s[j] == q,
        k < s.len() ==> s[s.len() - k - 1] != q,
    ensures
        count_trailing(s, q) == k,
    decreases s.len(),
{
    if k == 0 {
    } else {
        assert(s.last() == q);
        lemma_trailing_unique(s.drop_last(), q, k - 1);
    }
}

/// Remove every leading and every trailing occurrence of `q` from `s`.
fn trim_char<'a>(s: &'a str, q: char) -> (r: &'a str)
    ensures
        r@ == trim_matching(s@, q),
{
    let n = s.unicode_len();
    let mut lo: usize = 0;
    while lo < n && s.get_char(lo) == q
        invariant
            lo <= n,
            n == s@.len(),
            forall|j: int| 0 <= j < lo ==> s@[j] == q,
        decreases n - lo,
    {
        lo = lo + 1;
    }
    proof {
        lemma_leading_unique(s@, q, lo as int);
    }
    if lo == n {
        let r = s.substring_char(n, n);
        proof {
            assert(r@ =~= trim_matching(s@, q));
        }
        return r;
    }
    let mut hi: usize = n;
    while hi > lo && s.get_char(hi - 1) == q
        invariant
            lo <= hi <= n,
            lo < n,
            n == s@.len(),
            s@[lo as int] != q,
            forall|j: int| hi <= j < n ==> s@[j] == q,
        decreases hi,
    {
        hi = hi - 1;
    }
    proof {
        assert(hi > lo);
        lemma_trailing_unique(s@, q, n - hi);
    }
    let r = s.substring_char(lo, hi);
    proof {
        assert(r@ =~= trim_matching(s@, q));
    }
    r
}

/// Decode a string literal's span: every leading and trailing double
/// quote is removed, outer quotes and any that the content itself puts
/// at its boundary alike.
pub fn str_to_str_lit<'a>(s: &'a str) -> (r: &'a str)
    ensures
        r@ == trim_matching(s@, '"'),
{
    trim_char(s, '"')
}

/// Decode a character literal's span: trim every leading and trailing
/// single quote, then take the first remaining character; a span with
/// nothing between its quotes fails.
pub fn str_to_char(s: &str) -> (r: Result<char, DecodeError>)
    ensures
        trim_matching(s@, '\'').len() > 0 ==> r == Ok::<char, DecodeError>(
            trim_matching(s@, '\'')[0],
        ),
        trim_matching(s@, '\'').len() == 0 ==> r == Err::<char, DecodeError>(
            DecodeError::EmptyChar,
        ),
{
    let t = trim_char(s, '\'');
    if t.unicode_len() == 0 {
        Err(DecodeError::EmptyChar)
    } else {
        Ok(t.get_char(0))
    }
}

/// The position of the first decimal point of `s`, or its length when
/// it has none.
pub open spec fn first_dot(s: Seq<char>) -> int
    decreases s.len(),
{
    if s.len() == 0 {
        0
    } else if s[0] == '.' {
        0
    } else {
        1 + first_dot(s.drop_first())
    }
}

/// Whether `s` is of the decimal float shape: one or more decimal
/// digits, a decimal point, one or more decimal digits.
pub open spec fn is_decimal_float_text(s: Seq<char>) -> bool {
    let k = first_dot(s);
    &&& k < s.len()
    &&& is_radix_digits(s.subrange(0, k), 10)
    &&& is_radix_digits(s.subrange(k + 1, s.len() as int), 10)
}

/// A dot-free run of exactly `k` characters pins `first_dot`.
proof fn lemma_first_dot_unique(s: Seq<char>, k: int)
    requires
        0 <= k <= s.len(),
        forall|j: int| 0 <= j < k ==> s[j] != '.',
        k < s.len() ==> s[k] == '.',
    ensures
        first_dot(s) == k,
    decreases s.len(),
{
    if k == 0 {
    } else {
        assert(s[0] != '.');
        lemma_first_dot_unique(s.drop_first(), k - 1);
    }
}

/// Whether a float literal's span is of the decimal shape that this
/// crate accepts: digits, a decimal point, digits.
pub fn check_float_text(s: &str) -> (r: bool)
    ensures
        r == is_decimal_float_text(s@),
{
    let n = s.unicode_len();
    let mut k: usize = 0;
    while k < n && s.get_char(k) != '.'
        invariant
            k <= n,
            n == s@.len(),
            forall|j: int| 0 <= j < k ==> s@[j] != '.',
        decreases n - k,
    {
        k = k + 1;
    }
    proof {
        lemma_first_dot_unique(s@, k as int);
    }
    if k == n {
        return false;
    }
    if k == 0 || k + 1 == n {
        return false;
    }
    let pre = looks_all_digits(s, 0, k, 10);
    let post = looks_all_digits(s, k + 1, n, 10);
    proof {
        let sub_pre = s@.subrange(0, k as int);
        let sub_post = s@.subrange(k + 1, n as int);
        assert(forall|j: int| 0 <= j < sub_pre.len() ==> sub_pre[j] == s@[j]);
        assert(forall|j: int| 0 <= j < sub_post.len() ==> sub_post[j] == s@[k + 1 + j]);
        if pre {
            assert(is_radix_digits(sub_pre, 10));
        } else {
            let j = choose|j: int| 0 <= j < k && !(digit_value_int(s@[j], 10) >= 0);
            assert(sub_pre[j] == s@[j]);
            assert(!is_radix_digits(sub_pre, 10));
        }
        if post {
            assert(is_radix_digits(sub_post, 10));
        } else {
            let j = choose|j: int| k + 1 <= j < n && !(digit_value_int(s@[j], 10) >= 0);
            assert(sub_post[j - (k + 1)] == s@[j]);
            assert(!is_radix_digits(sub_post, 10));
        }
    }
    pre && post
}

} // verus!
