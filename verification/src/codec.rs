//! Text encodings the library relies on: decimal integers (as std's
//! `Display`/`FromStr` for `i64` write and read them) and base64, whose
//! encoding comes from the `base64` crate.
use vstd::prelude::*;

use crate::text::push_char;
use base64::Engine;

verus! {

/// The ASCII digit of a value below ten.
pub open spec fn digit_char(d: nat) -> char
    recommends
        d < 10,
{
    (d + 48) as char
}

/// Whether `c` is an ASCII digit.
pub open spec fn is_digit(c: char) -> bool {
    '0' <= c && c <= '9'
}

/// The value of an ASCII digit.
pub open spec fn digit_value(c: char) -> nat {
    (c as nat - 48) as nat
}

/// Decimal digits of a natural number, most significant first, no
/// leading zeros ("0" for zero).
pub open spec fn decimal_digits(n: nat) -> Seq<char>
    decreases n,
{
    if n < 10 {
        seq![digit_char(n)]
    } else {
        decimal_digits(n / 10).push(digit_char(n % 10))
    }
}

/// How std writes an `i64`: a minus sign for negatives, then the digits.
pub open spec fn i64_text(n: i64) -> Seq<char> {
    if n < 0 {
        seq!['-'] + decimal_digits((-n) as nat)
    } else {
        decimal_digits(n as nat)
    }
}

/// The value of a run of decimal digits.
pub open spec fn digits_value(s: Seq<char>) -> nat
    decreases s.len(),
{
    if s.len() == 0 {
        0
    } else {
        digits_value(s.drop_last()) * 10 + digit_value(s.last())
    }
}

/// Whether every character of `s` is an ASCII digit.
pub open spec fn all_digits(s: Seq<char>) -> bool {
    forall|i: int| 0 <= i < s.len() ==> is_digit(#[trigger] s[i])
}

/// How std reads an `i64`: an optional `+` or `-`, then at least one ASCII
/// digit and nothing else, in range.
pub open spec fn parse_i64_spec(s: Seq<char>) -> Option<i64> {
    let negative = s.len() > 0 && s[0] == '-';
    let body = if s.len() > 0 && (s[0] == '-' || s[0] == '+') {
        s.skip(1)
    } else {
        s
    };
    if body.len() == 0 || !all_digits(body) {
        None
    } else if negative {
        if digits_value(body) <= 0x8000_0000_0000_0000 {
            Some((-(digits_value(body) as int)) as i64)
        } else {
            None
        }
    } else {
        if digits_value(body) <= 0x7fff_ffff_ffff_ffff {
            Some(digits_value(body) as i64)
        } else {
            None
        }
    }
}

proof fn lemma_decimal_digits(n: nat)
    ensures
        all_digits(decimal_digits(n)),
        digits_value(decimal_digits(n)) == n,
        decimal_digits(n).len() > 0,
        decimal_digits(n)[0] != '-' && decimal_digits(n)[0] != '+',
    decreases n,
{
    if n < 10 {
        let d = decimal_digits(n);
        assert(d.drop_last() =~= Seq::<char>::empty());
        assert(digits_value(Seq::<char>::empty()) == 0);
        assert(digit_value(digit_char(n)) == n);
        assert(digits_value(d) == n);
    }
    if n >= 10 {
        lemma_decimal_digits(n / 10);
        let d = decimal_digits(n);
        assert(d.drop_last() =~= decimal_digits(n / 10));
        assert(digit_value(digit_char(n % 10)) == n % 10);
        assert(digits_value(d) == digits_value(decimal_digits(n / 10)) * 10 + n % 10);
        assert((n / 10) * 10 + n % 10 == n);
        assert(digits_value(d) == n);
        assert forall|i: int| 0 <= i < d.len() implies is_digit(#[trigger] d[i]) by {
            if i < d.len() - 1 {
                assert(d[i] == decimal_digits(n / 10)[i]);
            }
        }
    }
}

/// Reading back what std writes for an `i64` gives the same number.
pub proof fn law_i64_text_round_trip(n: i64)
    ensures
        parse_i64_spec(i64_text(n)) == Some(n),
{
    if n < 0 {
        let m = (-n) as nat;
        lemma_decimal_digits(m);
        let s = i64_text(n);
        assert(s.skip(1) =~= decimal_digits(m));
    } else {
        lemma_decimal_digits(n as nat);
    }
}

fn push_decimal(out: &mut String, n: u64)
    ensures
        final(out)@ == old(out)@ + decimal_digits(n as nat),
    decreases n,
{
    if n >= 10 {
        push_decimal(out, n / 10);
    }
    let d = (n % 10) as u8;
    let c = (d + 48) as char;
    assert(c == digit_char((n % 10) as nat));
    push_char(out, c);
    assert(final(out)@ =~= old(out)@ + decimal_digits(n as nat));
}

/// The decimal text of an `i64`, as `to_string` gives it.
pub fn format_i64(n: i64) -> (r: String)
    ensures
        r@ == i64_text(n),
{
    let mut out = String::new();
    if n < 0 {
        push_char(&mut out, '-');
        let m: u64 = if n == i64::MIN {
            0x8000_0000_0000_0000u64
        } else {
            (-n) as u64
        };
        push_decimal(&mut out, m);
    } else {
        push_decimal(&mut out, n as u64);
    }
    assert(out@ =~= i64_text(n));
    out
}

/// Reads an `i64` as `str::parse::<i64>` does.
pub fn parse_i64(s: &str) -> (r: Option<i64>)
    ensures
        r == parse_i64_spec(s@),
{
    let n = s.unicode_len();
    if n == 0 {
        return None;
    }
    let first = s.get_char(0);
    let negative = first == '-';
    let start: usize = if first == '-' || first == '+' {
        1
    } else {
        0
    };
    let ghost body = s@.skip(start as int);
    assert(s@.skip(0) =~= s@);
    assert(body == (if s@.len() > 0 && (s@[0] == '-' || s@[0] == '+') {
        s@.skip(1)
    } else {
        s@
    }));
    if start == n {
        return None;
    }
    let mut acc: u128 = 0;
    let mut i: usize = start;
    while i < n
        invariant
            n == s@.len(),
            start <= i <= n,
            body == s@.skip(start as int),
            body == (if s@.len() > 0 && (s@[0] == '-' || s@[0] == '+') {
                s@.skip(1)
            } else {
                s@
            }),
            negative == (s@.len() > 0 && s@[0] == '-'),
            all_digits(body.take(i - start)),
            acc == digits_value(body.take(i - start)),
            acc <= 0x8000_0000_0000_0000,
        decreases n - i,
    {
        let c = s.get_char(i);
        if !('0' <= c && c <= '9') {
            assert(body[i - start] == c);
            assert(!is_digit(body[i - start]));
            assert(!all_digits(body));
            return None;
        }
        let d = (c as u32 - 48) as u128;
        proof {
            let t = body.take(i + 1 - start);
            assert(t.drop_last() =~= body.take(i - start));
            assert(t.last() == c);
        }
        acc = acc * 10 + d;
        i = i + 1;
        if acc > 0x8000_0000_0000_0000 {
            proof {
                lemma_digits_value_grows(body, (i - start) as int);
            }
            assert(!all_digits(body) || digits_value(body) > 0x8000_0000_0000_0000);
            return None;
        }
    }
    assert(body.take(n - start) =~= body);
    assert(all_digits(body));
    assert(acc == digits_value(body));
    assert(body.len() > 0);
    if negative {
        if acc == 0x8000_0000_0000_0000 {
            Some(i64::MIN)
        } else {
            Some(-(acc as i64))
        }
    } else {
        if acc <= 0x7fff_ffff_ffff_ffff {
            Some(acc as i64)
        } else {
            None
        }
    }
}

proof fn lemma_digits_value_grows(s: Seq<char>, k: int)
    requires
        0 <= k <= s.len(),
        digits_value(s.take(k)) > 0x8000_0000_0000_0000,
    ensures
        !all_digits(s) || digits_value(s) > 0x8000_0000_0000_0000,
    decreases s.len() - k,
{
    if k < s.len() {
        let t = s.take(k + 1);
        assert(t.drop_last() =~= s.take(k));
        lemma_digits_value_grows(s, k + 1);
    } else {
        assert(s.take(k) =~= s);
    }
}

/// The base64 symbol of a six-bit value, standard or URL-safe alphabet.
pub open spec fn b64_symbol(v: nat, url_safe: bool) -> char {
    if v < 26 {
        (v + 65) as char
    } else if v < 52 {
        (v - 26 + 97) as char
    } else if v < 62 {
        (v - 52 + 48) as char
    } else if v == 62 {
        if url_safe {
            '-'
        } else {
            '+'
        }
    } else {
        if url_safe {
            '_'
        } else {
            '/'
        }
    }
}

/// RFC 4648 base64 of a byte string, in the given alphabet, with or
/// without `=` padding.
pub open spec fn base64_spec(b: Seq<u8>, url_safe: bool, pad: bool) -> Seq<char>
    decreases b.len(),
{
    if b.len() == 0 {
        Seq::empty()
    } else if b.len() == 1 {
        seq![b64_symbol(b[0] as nat / 4, url_safe), b64_symbol((b[0] as nat % 4) * 16, url_safe)]
            + if pad {
            seq!['=', '=']
        } else {
            Seq::empty()
        }
    } else if b.len() == 2 {
        seq![
            b64_symbol(b[0] as nat / 4, url_safe),
            b64_symbol((b[0] as nat % 4) * 16 + b[1] as nat / 16, url_safe),
            b64_symbol((b[1] as nat % 16) * 4, url_safe),
        ] + if pad {
            seq!['=']
        } else {
            Seq::empty()
        }
    } else {
        seq![
            b64_symbol(b[0] as nat / 4, url_safe),
            b64_symbol((b[0] as nat % 4) * 16 + b[1] as nat / 16, url_safe),
            b64_symbol((b[1] as nat % 16) * 4 + b[2] as nat / 64, url_safe),
            b64_symbol(b[2] as nat % 64, url_safe),
        ] + base64_spec(b.skip(3), url_safe, pad)
    }
}

/// Distinct six-bit values have distinct symbols, in either alphabet.
pub proof fn lemma_b64_symbol_injective(v: nat, w: nat, url_safe: bool)
    requires
        v < 64,
        w < 64,
        b64_symbol(v, url_safe) == b64_symbol(w, url_safe),
    ensures
        v == w,
{
    let cv = b64_symbol(v, url_safe) as u32;
    let cw = b64_symbol(w, url_safe) as u32;
    assert(cv == cw);
}

/// The bytes of one, two or three symbols' worth are fixed by the symbols.
proof fn lemma_byte_split(a: u8, b: u8)
    requires
        a as nat / 4 == b as nat / 4,
        a as nat % 4 == b as nat % 4,
    ensures
        a == b,
{
}

/// Unpadded base64 has a length that tells how many bytes remain in the
/// last group, and at least four symbols per full group.
proof fn lemma_base64_len(b: Seq<u8>, url_safe: bool)
    ensures
        b.len() == 0 <==> base64_spec(b, url_safe, false).len() == 0,
        b.len() == 1 ==> base64_spec(b, url_safe, false).len() == 2,
        b.len() == 2 ==> base64_spec(b, url_safe, false).len() == 3,
        b.len() >= 3 ==> base64_spec(b, url_safe, false).len() >= 4,
{
}

/// Unpadded base64 is injective: a text is the encoding of at most one
/// byte string.
pub proof fn lemma_base64_injective(b1: Seq<u8>, b2: Seq<u8>, url_safe: bool)
    requires
        base64_spec(b1, url_safe, false) == base64_spec(b2, url_safe, false),
    ensures
        b1 == b2,
    decreases b1.len(),
{
    let e = base64_spec(b1, url_safe, false);
    lemma_base64_len(b1, url_safe);
    lemma_base64_len(b2, url_safe);
    if b1.len() == 0 {
        assert(b2.len() == 0);
        assert(b1 =~= b2);
    } else if b1.len() == 1 {
        assert(b2.len() == 1);
        lemma_b64_symbol_injective(b1[0] as nat / 4, b2[0] as nat / 4, url_safe);
        assert(e[1] == base64_spec(b2, url_safe, false)[1]);
        lemma_b64_symbol_injective((b1[0] as nat % 4) * 16, (b2[0] as nat % 4) * 16, url_safe);
        lemma_byte_split(b1[0], b2[0]);
        assert(b1 =~= b2);
    } else if b1.len() == 2 {
        assert(b2.len() == 2);
        let e2 = base64_spec(b2, url_safe, false);
        assert(e[0] == e2[0] && e[1] == e2[1] && e[2] == e2[2]);
        lemma_b64_symbol_injective(b1[0] as nat / 4, b2[0] as nat / 4, url_safe);
        lemma_b64_symbol_injective(
            (b1[0] as nat % 4) * 16 + b1[1] as nat / 16,
            (b2[0] as nat % 4) * 16 + b2[1] as nat / 16,
            url_safe,
        );
        lemma_b64_symbol_injective((b1[1] as nat % 16) * 4, (b2[1] as nat % 16) * 4, url_safe);
        lemma_byte_split(b1[0], b2[0]);
        assert(b1[1] == b2[1]);
        assert(b1 =~= b2);
    } else {
        assert(b2.len() >= 3);
        let e2 = base64_spec(b2, url_safe, false);
        assert(e[0] == e2[0] && e[1] == e2[1] && e[2] == e2[2] && e[3] == e2[3]);
        lemma_b64_symbol_injective(b1[0] as nat / 4, b2[0] as nat / 4, url_safe);
        lemma_b64_symbol_injective(
            (b1[0] as nat % 4) * 16 + b1[1] as nat / 16,
            (b2[0] as nat % 4) * 16 + b2[1] as nat / 16,
            url_safe,
        );
        lemma_b64_symbol_injective(
            (b1[1] as nat % 16) * 4 + b1[2] as nat / 64,
            (b2[1] as nat % 16) * 4 + b2[2] as nat / 64,
            url_safe,
        );
        lemma_b64_symbol_injective(b1[2] as nat % 64, b2[2] as nat % 64, url_safe);
        lemma_byte_split(b1[0], b2[0]);
        assert(b1[1] == b2[1]);
        assert(b1[2] == b2[2]);
        let t1 = base64_spec(b1.skip(3), url_safe, false);
        let t2 = base64_spec(b2.skip(3), url_safe, false);
        assert(e == e.subrange(0, 4) + t1);
        assert(e2 == e2.subrange(0, 4) + t2);
        assert(t1 =~= e.subrange(4, e.len() as int));
        assert(t2 =~= e2.subrange(4, e2.len() as int));
        lemma_base64_injective(b1.skip(3), b2.skip(3), url_safe);
        assert(b1 =~= b1.subrange(0, 3) + b1.skip(3));
        assert(b2 =~= b2.subrange(0, 3) + b2.skip(3));
        assert(b1.subrange(0, 3) =~= b2.subrange(0, 3));
    }
}

/// Calls `base64::engine::general_purpose::STANDARD.encode`: standard
/// alphabet, `=` padding, as RFC 4648 defines it.
#[verifier::external_body]
pub(crate) fn base64_standard(bytes: &[u8]) -> (r: String)
    ensures
        r@ == base64_spec(bytes@, false, true),
{
    base64::engine::general_purpose::STANDARD.encode(bytes)
}

/// Calls `base64::engine::general_purpose::URL_SAFE_NO_PAD.encode`:
/// URL-safe alphabet, no padding.
#[verifier::external_body]
pub(crate) fn base64_url_no_pad(bytes: &[u8]) -> (r: String)
    ensures
        r@ == base64_spec(bytes@, true, false),
{
    base64::engine::general_purpose::URL_SAFE_NO_PAD.encode(bytes)
}

/// Calls `base64::engine::general_purpose::URL_SAFE_NO_PAD.decode`. That
/// engine accepts exactly the canonical unpadded URL-safe encodings (no
/// padding, no stray trailing bits), so a text decodes to the bytes it is
/// the encoding of, and to nothing when it encodes no bytes.
#[verifier::external_body]
pub(crate) fn base64_url_no_pad_decode(text: &str) -> (r: Option<Vec<u8>>)
    ensures
        match r {
            Some(b) => base64_spec(b@, true, false) == text@,
            None => forall|b: Seq<u8>| base64_spec(b, true, false) != text@,
        },
{
    base64::engine::general_purpose::URL_SAFE_NO_PAD.decode(text).ok()
}

} // verus!
