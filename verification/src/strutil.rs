//! Character-sequence helpers shared by the query renderers and parsers:
//! ASCII case folding, decimal rendering of integers, decimal parsing,
//! and the form-urlencoded percent encoding used for query values.
use vstd::prelude::*;

verus! {

/// ASCII lower-casing of a single character; anything outside `A`..=`Z`
/// is left unchanged.
pub open spec fn lower_char(c: char) -> char {
    if 'A' <= c && c <= 'Z' {
        (((c as u8) + 32) as u8) as char
    } else {
        c
    }
}

/// ASCII lower-casing of a character sequence.
pub open spec fn lower_chars(s: Seq<char>) -> Seq<char> {
    s.map_values(|c: char| lower_char(c))
}

/// Folding a sequence twice is the same as folding it once.
pub proof fn lemma_lower_chars_idempotent(s: Seq<char>)
    ensures
        lower_chars(lower_chars(s)) == lower_chars(s),
{
    assert forall|i: int| 0 <= i < s.len() implies lower_char(lower_char(s[i])) == lower_char(
        s[i],
    ) by {
        let c = s[i];
        if 'A' <= c && c <= 'Z' {
            assert(!('A' <= lower_char(c) && lower_char(c) <= 'Z'));
        }
    }
    assert(lower_chars(lower_chars(s)) =~= lower_chars(s));
}

/// Whether `s` case-folds to the (already lower-case) sequence `t`.
pub fn eq_lower(s: &str, t: &str) -> (r: bool)
    ensures
        r == (lower_chars(s@) == t@),
{
    let ns = s.unicode_len();
    let nt = t.unicode_len();
    if ns != nt {
        proof {
            assert(lower_chars(s@).len() == s@.len());
        }
        return false;
    }
    let mut i: usize = 0;
    while i < ns
        invariant
            i <= ns,
            ns == s@.len(),
            nt == t@.len(),
            ns == nt,
            forall|j: int| 0 <= j < i ==> lower_chars(s@)[j] == t@[j],
        decreases ns - i,
    {
        let c = s.get_char(i);
        let cl = if 'A' <= c && c <= 'Z' {
            ((c as u8) + 32) as char
        } else {
            c
        };
        proof {
            assert(lower_chars(s@)[i as int] == lower_char(s@[i as int]));
        }
        if cl != t.get_char(i) {
            return false;
        }
        i += 1;
    }
    proof {
        assert(lower_chars(s@) =~= t@);
    }
    true
}

/// Relies on `String::push`: appends exactly one character at the end.
#[verifier::external_body]
pub fn push_char(s: &mut String, c: char)
    ensures
        final(s)@ == old(s)@.push(c),
{
    s.push(c);
}

/// The character for a single decimal digit.
pub open spec fn dec_digit(d: nat) -> char
    recommends
        d < 10,
{
    ((48 + d) as u8) as char
}

/// The decimal rendering of a natural number, most significant digit first.
pub open spec fn dec_rep(n: nat) -> Seq<char>
    decreases n,
{
    if n < 10 {
        seq![dec_digit(n)]
    } else {
        dec_rep(n / 10).push(dec_digit(n % 10))
    }
}

/// Renders `n` in decimal.
pub fn u64_to_string(n: u64) -> (s: String)
    ensures
        s@ == dec_rep(n as nat),
    decreases n,
{
    if n < 10 {
        let mut s = String::new();
        push_char(&mut s, ((48 + n) as u8) as char);
        proof {
            assert(s@ =~= seq![dec_digit(n as nat)]);
        }
        s
    } else {
        let mut s = u64_to_string(n / 10);
        push_char(&mut s, ((48 + (n % 10)) as u8) as char);
        s
    }
}

/// Renders `n` in decimal.
pub fn usize_to_string(n: usize) -> (s: String)
    ensures
        s@ == dec_rep(n as nat),
{
    u64_to_string(n as u64)
}

pub open spec fn is_dec_digit(c: char) -> bool {
    '0' <= c && c <= '9'
}

pub open spec fn all_dec_digits(s: Seq<char>) -> bool {
    forall|i: int| 0 <= i < s.len() ==> is_dec_digit(#[trigger] s[i])
}

/// The numeric value of a sequence of decimal digits.
pub open spec fn digits_val(s: Seq<char>) -> nat
    recommends
        all_dec_digits(s),
    decreases s.len(),
{
    if s.len() == 0 {
        0
    } else {
        digits_val(s.drop_last()) * 10 + ((s.last() as int - 48) as nat)
    }
}

/// What parsing a decimal string as a `u32` yields: the digits' value when
/// the string is non-empty, all digits, and the value fits; nothing else.
pub open spec fn parse_u32_spec(s: Seq<char>) -> Option<u32> {
    if s.len() > 0 && all_dec_digits(s) && digits_val(s) <= u32::MAX {
        Some(digits_val(s) as u32)
    } else {
        None
    }
}

/// A prefix of a digit string never exceeds the whole string's value.
proof fn lemma_digits_val_prefix(s: Seq<char>, j: int)
    requires
        0 <= j <= s.len(),
        all_dec_digits(s),
    ensures
        digits_val(s.take(j)) <= digits_val(s),
    decreases s.len() - j,
{
    if j < s.len() {
        assert(s.take(j + 1).drop_last() =~= s.take(j));
        assert(digits_val(s.take(j + 1)) == digits_val(s.take(j)) * 10 + (s[j] as nat - 48));
        assert(digits_val(s.take(j)) <= digits_val(s.take(j)) * 10);
        lemma_digits_val_prefix(s, j + 1);
    } else {
        assert(s.take(j) =~= s);
    }
}

/// Parses a decimal `u32`, returning `None` on an empty string, a non-digit
/// character, or overflow.
pub fn parse_u32(s: &str) -> (r: Option<u32>)
    ensures
        r == parse_u32_spec(s@),
{
    let n = s.unicode_len();
    if n == 0 {
        return None;
    }
    let mut i: usize = 0;
    let mut val: u32 = 0;
    while i < n
        invariant
            i <= n,
            n == s@.len(),
            n > 0,
            all_dec_digits(s@.take(i as int)),
            val == digits_val(s@.take(i as int)),
        decreases n - i,
    {
        let c = s.get_char(i);
        proof {
            assert(s@.take(i + 1).drop_last() =~= s@.take(i as int));
            assert(s@.take(i + 1).last() == s@[i as int]);
        }
        if !('0' <= c && c <= '9') {
            proof {
                assert(!is_dec_digit(s@[i as int]));
            }
            return None;
        }
        let d = (c as u32) - 48;
        if val > (0xffff_ffffu32 - d) / 10 {
            proof {
                assert(digits_val(s@.take(i + 1)) == val * 10 + d);
                assert(val * 10 + d > u32::MAX) by {
                    assert(val >= (0xffff_ffffu32 - d) / 10 + 1);
                    assert((((0xffff_ffffu32 - d) / 10 + 1) as int) * 10 >= (0xffff_ffffu32 - d)
                        + 1) by (nonlinear_arith);
                    assert(val * 10 >= (((0xffff_ffffu32 - d) / 10 + 1) as int) * 10)
                        by (nonlinear_arith)
                        requires
                            val >= (0xffff_ffffu32 - d) / 10 + 1,
                    ;
                }
                if all_dec_digits(s@) {
                    lemma_digits_val_prefix(s@, i + 1);
                }
            }
            return None;
        }
        proof {
            assert(val * 10 + d <= u32::MAX) by {
                assert(val <= (0xffff_ffffu32 - d) / 10);
                assert((((0xffff_ffffu32 - d) / 10) as int) * 10 <= (0xffff_ffffu32 - d) as int)
                    by (nonlinear_arith);
                assert(val * 10 <= (((0xffff_ffffu32 - d) / 10) as int) * 10) by (nonlinear_arith)
                    requires
                        val <= (0xffff_ffffu32 - d) / 10,
                ;
            }
            assert(digits_val(s@.take(i + 1)) == val * 10 + d);
        }
        val = val * 10 + d;
        i += 1;
    }
    proof {
        assert(s@.take(n as int) =~= s@);
    }
    Some(val)
}

/// Bytes that pass through form-urlencoding unchanged: ASCII alphanumerics
/// and `*`, `-`, `.`, `_`.
pub open spec fn is_form_safe_byte(b: u8) -> bool {
    (48 <= b && b <= 57) || (65 <= b && b <= 90) || (97 <= b && b <= 122) || b == 42 || b == 45
        || b == 46 || b == 95
}

/// The character for a hexadecimal digit, upper case.
pub open spec fn hex_digit_char(d: u8) -> char
    recommends
        d < 16,
{
    if d < 10 {
        ((48 + d) as u8) as char
    } else {
        ((55 + d) as u8) as char
    }
}

/// The encoding of one byte: safe bytes stand for themselves, a space
/// becomes `+`, and everything else becomes `%` and two hex digits.
pub open spec fn enc_byte(b: u8) -> Seq<char> {
    if is_form_safe_byte(b) {
        seq![b as char]
    } else if b == 32 {
        seq!['+']
    } else {
        seq!['%', hex_digit_char(b / 16), hex_digit_char(b % 16)]
    }
}

/// The form-urlencoding of a byte sequence.
pub open spec fn form_encode_bytes(bs: Seq<u8>) -> Seq<char>
    decreases bs.len(),
{
    if bs.len() == 0 {
        Seq::empty()
    } else {
        enc_byte(bs[0]) + form_encode_bytes(bs.drop_first())
    }
}

/// The form-urlencoding of a character sequence: its UTF-8 bytes, encoded
/// byte by byte.
pub open spec fn form_encode(s: Seq<char>) -> Seq<char> {
    form_encode_bytes(vstd::utf8::encode_utf8(s))
}

proof fn lemma_form_encode_bytes_push(bs: Seq<u8>, b: u8)
    ensures
        form_encode_bytes(bs.push(b)) == form_encode_bytes(bs) + enc_byte(b),
    decreases bs.len(),
{
    reveal_with_fuel(form_encode_bytes, 3);
    if bs.len() == 0 {
        assert(bs.push(b)[0] == b);
        assert(bs.push(b).drop_first() =~= Seq::<u8>::empty());
        assert(form_encode_bytes(bs.push(b)) =~= form_encode_bytes(bs) + enc_byte(b));
    } else {
        assert(bs.push(b)[0] == bs[0]);
        assert(bs.push(b).drop_first() =~= bs.drop_first().push(b));
        lemma_form_encode_bytes_push(bs.drop_first(), b);
        assert(form_encode_bytes(bs.push(b)) == enc_byte(bs[0]) + (form_encode_bytes(
            bs.drop_first(),
        ) + enc_byte(b)));
        assert(form_encode_bytes(bs) == enc_byte(bs[0]) + form_encode_bytes(bs.drop_first()));
        assert(enc_byte(bs[0]) + (form_encode_bytes(bs.drop_first()) + enc_byte(b)) =~= (enc_byte(
            bs[0],
        ) + form_encode_bytes(bs.drop_first())) + enc_byte(b));
    }
}

/// Encodes a string for use as a query-string value, byte by byte over its
/// UTF-8 form.
pub fn form_encode_str(s: &str) -> (r: String)
    ensures
        r@ == form_encode(s@),
{
    let bs = s.as_bytes();
    let n = bs.len();
    let mut out = String::new();
    let mut i: usize = 0;
    while i < n
        invariant
            i <= n,
            n == bs@.len(),
            bs@ == vstd::utf8::encode_utf8(s@),
            out@ == form_encode_bytes(bs@.take(i as int)),
        decreases n - i,
    {
        let b = bs[i];
        proof {
            assert(bs@.take(i + 1) =~= bs@.take(i as int).push(bs@[i as int]));
            lemma_form_encode_bytes_push(bs@.take(i as int), bs@[i as int]);
        }
        if (48 <= b && b <= 57) || (65 <= b && b <= 90) || (97 <= b && b <= 122) || b == 42 || b
            == 45 || b == 46 || b == 95 {
            push_char(&mut out, b as char);
            proof {
                assert(out@ =~= form_encode_bytes(bs@.take(i + 1)));
            }
        } else if b == 32 {
            push_char(&mut out, '+');
            proof {
                assert(out@ =~= form_encode_bytes(bs@.take(i + 1)));
            }
        } else {
            push_char(&mut out, '%');
            let hi = b / 16;
            let lo = b % 16;
            push_char(
                &mut out,
                if hi < 10 {
                    (48 + hi) as char
                } else {
                    (55 + hi) as char
                },
            );
            push_char(
                &mut out,
                if lo < 10 {
                    (48 + lo) as char
                } else {
                    (55 + lo) as char
                },
            );
            proof {
                assert(out@ =~= form_encode_bytes(bs@.take(i + 1)));
            }
        }
        i += 1;
    }
    proof {
        assert(bs@.take(n as int) =~= bs@);
    }
    out
}

/// Whether two string slices hold the same characters.
pub fn str_eq(s: &str, t: &str) -> (r: bool)
    ensures
        r == (s@ == t@),
{
    let ns = s.unicode_len();
    let nt = t.unicode_len();
    if ns != nt {
        return false;
    }
    let mut i: usize = 0;
    while i < ns
        invariant
            i <= ns,
            ns == s@.len(),
            nt == t@.len(),
            ns == nt,
            forall|j: int| 0 <= j < i ==> s@[j] == t@[j],
        decreases ns - i,
    {
        if s.get_char(i) != t.get_char(i) {
            return false;
        }
        i += 1;
    }
    proof {
        assert(s@ =~= t@);
    }
    true
}

} // verus!
