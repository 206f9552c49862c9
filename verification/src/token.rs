//! Session tokens: their decimal text (as carried in the session cookie) and
//! their little-endian bytes (as stored in the sessions table).
use vstd::prelude::*;
use vstd::string::*;

verus! {

pub open spec fn is_digit(c: char) -> bool {
    '0' <= c && c <= '9'
}

pub open spec fn digit_value(c: char) -> nat {
    (c as int - '0' as int) as nat
}

pub open spec fn digit_char(d: nat) -> char {
    (d + ('0' as int)) as char
}

pub open spec fn all_digits(s: Seq<char>) -> bool {
    forall|i: int| 0 <= i < s.len() ==> #[trigger] is_digit(s[i])
}

/// The number that a string of decimal digits denotes.
pub open spec fn decimal_value(s: Seq<char>) -> nat
    decreases s.len(),
{
    if s.len() == 0 {
        0
    } else {
        decimal_value(s.drop_last()) * 10 + digit_value(s.last())
    }
}

/// The shortest decimal writing of `n`, as `u128::to_string` gives it.
pub open spec fn decimal_digits(n: nat) -> Seq<char>
    decreases n,
{
    if n < 10 {
        seq![digit_char(n)]
    } else {
        decimal_digits(n / 10).push(digit_char(n % 10))
    }
}

/// What `str::parse::<u128>` accepts: an optional `+`, then at least one
/// decimal digit and nothing else, denoting a number that fits in 128 bits.
pub open spec fn spec_parse_token(s: Seq<char>) -> Option<u128> {
    let digits = if s.len() > 0 && s[0] == '+' {
        s.drop_first()
    } else {
        s
    };
    if digits.len() > 0 && all_digits(digits) && decimal_value(digits) <= u128::MAX {
        Some(decimal_value(digits) as u128)
    } else {
        None
    }
}

/// `256` to the power `k`.
pub open spec fn pow256(k: nat) -> nat
    decreases k,
{
    if k == 0 {
        1
    } else {
        256 * pow256((k - 1) as nat)
    }
}

/// The number whose little-endian bytes are `bytes`.
pub open spec fn le_value(bytes: Seq<u8>) -> nat
    decreases bytes.len(),
{
    if bytes.len() == 0 {
        0
    } else {
        (bytes[0] + 256 * le_value(bytes.drop_first())) as nat
    }
}

/// The `k` lowest bytes of `n`, least significant first.
pub open spec fn le_bytes(n: nat, k: nat) -> Seq<u8>
    decreases k,
{
    if k == 0 {
        Seq::empty()
    } else {
        seq![(n % 256) as u8] + le_bytes(n / 256, (k - 1) as nat)
    }
}

proof fn lemma_digit_char(d: nat)
    requires
        d < 10,
    ensures
        is_digit(digit_char(d)),
        digit_value(digit_char(d)) == d,
        digit_char(d) != '+',
{
}

/// The decimal writing of `n` is made of digits and denotes `n`.
pub(crate) proof fn lemma_decimal_digits(n: nat)
    ensures
        decimal_digits(n).len() > 0,
        all_digits(decimal_digits(n)),
        decimal_value(decimal_digits(n)) == n,
    decreases n,
{
    if n < 10 {
        lemma_digit_char(n);
        assert(decimal_digits(n).drop_last() =~= Seq::<char>::empty());
        assert(decimal_value(Seq::<char>::empty()) == 0);
    } else {
        lemma_decimal_digits(n / 10);
        lemma_digit_char(n % 10);
        let s = decimal_digits(n);
        assert(s.drop_last() =~= decimal_digits(n / 10));
        assert(s.last() == digit_char(n % 10));
        assert(decimal_value(s) == decimal_value(decimal_digits(n / 10)) * 10 + digit_value(
            digit_char(n % 10),
        ));
        assert((n / 10) * 10 + n % 10 == n) by (nonlinear_arith);
        assert forall|i: int| 0 <= i < s.len() implies #[trigger] is_digit(s[i]) by {
            if i < s.len() - 1 {
                assert(s[i] == decimal_digits(n / 10)[i]);
            }
        }
    }
}

/// Reading back the decimal writing of a token gives the token.
pub proof fn law_token_text_roundtrip(t: u128)
    ensures
        spec_parse_token(decimal_digits(t as nat)) == Some(t),
{
    lemma_decimal_digits(t as nat);
    assert(is_digit(decimal_digits(t as nat)[0]));
}

/// A digit string denotes at least as much as any of its prefixes.
proof fn lemma_decimal_value_prefix(s: Seq<char>, k: int)
    requires
        all_digits(s),
        0 <= k <= s.len(),
    ensures
        decimal_value(s.take(k)) <= decimal_value(s),
    decreases s.len(),
{
    if k < s.len() {
        let t = s.drop_last();
        assert(all_digits(t)) by {
            assert forall|i: int| 0 <= i < t.len() implies #[trigger] is_digit(t[i]) by {
                assert(t[i] == s[i]);
            }
        }
        lemma_decimal_value_prefix(t, k);
        assert(t.take(k) =~= s.take(k));
    } else {
        assert(s.take(k) =~= s);
    }
}

/// Reads a session token from its decimal text, as `str::parse::<u128>`
/// does: an optional `+`, then one or more digits, within 128 bits.
pub fn parse_token(text: &str) -> (token: Option<u128>)
    ensures
        token == spec_parse_token(text@),
{
    let len = text.unicode_len();
    let start: usize = if len > 0 && text.get_char(0) == '+' {
        1
    } else {
        0
    };
    let ghost digits = text@.subrange(start as int, len as int);
    assert(digits =~= (if text@.len() > 0 && text@[0] == '+' {
        text@.drop_first()
    } else {
        text@
    }));
    if start == len {
        return None;
    }
    let mut value: u128 = 0;
    let mut i: usize = start;
    assert(text@.subrange(start as int, start as int) =~= Seq::<char>::empty());
    while i < len
        invariant
            start <= i <= len,
            len == text@.len(),
            digits == text@.subrange(start as int, len as int),
            digits == (if text@.len() > 0 && text@[0] == '+' {
                text@.drop_first()
            } else {
                text@
            }),
            digits.len() > 0,
            all_digits(text@.subrange(start as int, i as int)),
            value == decimal_value(text@.subrange(start as int, i as int)),
        decreases len - i,
    {
        let c = text.get_char(i);
        let ghost next = text@.subrange(start as int, i + 1);
        assert(next.drop_last() =~= text@.subrange(start as int, i as int));
        assert(next.last() == c);
        assert(digits[i - start] == c);
        if !('0' <= c && c <= '9') {
            assert(!is_digit(digits[i - start]));
            return None;
        }
        let d: u128 = (c as u32 - '0' as u32) as u128;
        assert(d == digit_value(c));
        assert(all_digits(next)) by {
            assert forall|j: int| 0 <= j < next.len() implies #[trigger] is_digit(next[j]) by {
                if j < next.len() - 1 {
                    assert(next[j] == text@.subrange(start as int, i as int)[j]);
                }
            }
        }
        assert(decimal_value(next) == value * 10 + d);
        let scaled = value.checked_mul(10);
        let sum = match scaled {
            Some(m) => m.checked_add(d),
            None => None,
        };
        match sum {
            Some(v) => {
                value = v;
            },
            None => {
                proof {
                    if all_digits(digits) {
                        lemma_decimal_value_prefix(digits, i + 1 - start);
                        assert(digits.take(i + 1 - start) =~= next);
                    }
                }
                return None;
            },
        }
        i = i + 1;
    }
    assert(text@.subrange(start as int, i as int) =~= digits);
    Some(value)
}

/// Different tokens have different decimal texts, so a cookie names one
/// token only.
pub proof fn law_token_text_injective(a: u128, b: u128)
    ensures
        decimal_digits(a as nat) == decimal_digits(b as nat) ==> a == b,
{
    law_token_text_roundtrip(a);
    law_token_text_roundtrip(b);
}

fn digit_text(d: u128) -> (text: &'static str)
    requires
        d < 10,
    ensures
        text@ == seq![digit_char(d as nat)],
{
    proof {
        reveal_strlit("0");
        reveal_strlit("1");
        reveal_strlit("2");
        reveal_strlit("3");
        reveal_strlit("4");
        reveal_strlit("5");
        reveal_strlit("6");
        reveal_strlit("7");
        reveal_strlit("8");
        reveal_strlit("9");
    }
    if d == 0 {
        "0"
    } else if d == 1 {
        "1"
    } else if d == 2 {
        "2"
    } else if d == 3 {
        "3"
    } else if d == 4 {
        "4"
    } else if d == 5 {
        "5"
    } else if d == 6 {
        "6"
    } else if d == 7 {
        "7"
    } else if d == 8 {
        "8"
    } else {
        "9"
    }
}

fn write_decimal(n: u128, out: &mut String)
    ensures
        final(out)@ == old(out)@ + decimal_digits(n as nat),
    decreases n,
{
    if n >= 10 {
        write_decimal(n / 10, out);
    }
    out.append(digit_text(n % 10));
    proof {
        if n >= 10 {
            assert(decimal_digits(n as nat) == decimal_digits((n / 10) as nat).push(
                digit_char((n % 10) as nat),
            ));
            assert(old(out)@ + decimal_digits(n as nat) =~= old(out)@ + decimal_digits(
                (n / 10) as nat,
            ) + seq![digit_char((n % 10) as nat)]);
        }
    }
}

/// The decimal text of a session token, as the cookie carries it
/// (`u128::to_string`).
pub fn token_text(token: u128) -> (text: String)
    ensures
        text@ == decimal_digits(token as nat),
{
    let mut text = String::new();
    write_decimal(token, &mut text);
    proof {
        assert(text@ =~= decimal_digits(token as nat));
    }
    text
}

proof fn lemma_pow256_monotonic(a: nat, b: nat)
    requires
        a <= b,
    ensures
        1 <= pow256(a) <= pow256(b),
    decreases b,
{
    if b > 0 {
        if a < b {
            lemma_pow256_monotonic(a, (b - 1) as nat);
        } else {
            lemma_pow256_monotonic((b - 1) as nat, (b - 1) as nat);
        }
    }
}

pub(crate) proof fn lemma_pow256_16()
    ensures
        pow256(16) == u128::MAX + 1,
{
    reveal_with_fuel(pow256, 17);
}

/// A number read from `k` little-endian bytes is below `256^k`.
pub(crate) proof fn lemma_le_value_bound(bytes: Seq<u8>)
    ensures
        le_value(bytes) < pow256(bytes.len()),
    decreases bytes.len(),
{
    if bytes.len() > 0 {
        lemma_le_value_bound(bytes.drop_first());
        let p = pow256((bytes.len() - 1) as nat);
        let v = le_value(bytes.drop_first());
        let b = bytes[0];
        assert(b + 256 * v < 256 * p) by (nonlinear_arith)
            requires
                v < p,
                b < 256,
        ;
    }
}

/// The `k` low bytes of a number below `256^k` give the number back.
proof fn lemma_le_bytes_value(n: nat, k: nat)
    requires
        n < pow256(k),
    ensures
        le_bytes(n, k).len() == k,
        le_value(le_bytes(n, k)) == n,
    decreases k,
{
    if k > 0 {
        let p = pow256((k - 1) as nat);
        assert(n / 256 < p) by (nonlinear_arith)
            requires
                n < 256 * p,
        ;
        lemma_le_bytes_value(n / 256, (k - 1) as nat);
        let b = le_bytes(n, k);
        assert(b.drop_first() =~= le_bytes(n / 256, (k - 1) as nat));
        assert(n % 256 + 256 * (n / 256) == n) by (nonlinear_arith);
    }
}

/// The bytes under which a session is stored: the token's 16 bytes, least
/// significant first (`u128::to_le_bytes`).
pub fn token_key(token: u128) -> (key: Vec<u8>)
    ensures
        key@ == le_bytes(token as nat, 16),
{
    let mut key: Vec<u8> = Vec::new();
    let mut rest: u128 = token;
    let mut i: usize = 0;
    assert(key@ + le_bytes(rest as nat, 16) =~= le_bytes(token as nat, 16));
    while i < 16
        invariant
            i <= 16,
            key@ + le_bytes(rest as nat, (16 - i) as nat) == le_bytes(token as nat, 16),
        decreases 16 - i,
    {
        let ghost before = key@;
        assert(le_bytes(rest as nat, (16 - i) as nat) =~= seq![(rest % 256) as u8] + le_bytes(
            (rest / 256) as nat,
            (16 - i - 1) as nat,
        ));
        key.push((rest % 256) as u8);
        assert(key@ =~= before + seq![(rest % 256) as u8]);
        assert(key@ + le_bytes((rest / 256) as nat, (16 - i - 1) as nat) =~= before + (seq![
            (rest % 256) as u8,
        ] + le_bytes((rest / 256) as nat, (16 - i - 1) as nat)));
        rest = rest / 256;
        i = i + 1;
    }
    assert(le_bytes(rest as nat, 0) =~= Seq::<u8>::empty());
    assert(key@ =~= le_bytes(token as nat, 16));
    key
}

/// The token whose 16 little-endian bytes are given (`u128::from_le_bytes`).
pub fn token_from_le_bytes(bytes: [u8; 16]) -> (token: u128)
    ensures
        token == le_value(bytes@),
{
    let mut value: u128 = 0;
    let mut i: usize = 16;
    assert(bytes@.subrange(16, 16) =~= Seq::<u8>::empty());
    proof {
        lemma_pow256_16();
    }
    while i > 0
        invariant
            i <= 16,
            bytes@.len() == 16,
            pow256(16) == u128::MAX + 1,
            value == le_value(bytes@.subrange(i as int, 16)),
            value < pow256((16 - i) as nat),
        decreases i,
    {
        i = i - 1;
        let b = bytes[i];
        let ghost tail = bytes@.subrange(i as int, 16);
        assert(tail.drop_first() =~= bytes@.subrange(i + 1, 16));
        assert(tail[0] == b);
        let ghost p = pow256((16 - i - 1) as nat);
        assert(pow256((16 - i) as nat) == 256 * p);
        proof {
            lemma_pow256_monotonic((16 - i) as nat, 16);
        }
        assert(b + 256 * value < 256 * p) by (nonlinear_arith)
            requires
                value < p,
                b < 256,
        ;
        value = b as u128 + 256 * value;
    }
    assert(bytes@.subrange(0, 16) =~= bytes@);
    value
}

/// A token stored under its key bytes reads back as the same token, so two
/// different tokens never share a key.
pub proof fn law_token_key_roundtrip(a: u128, b: u128)
    ensures
        le_bytes(a as nat, 16).len() == 16,
        le_value(le_bytes(a as nat, 16)) == a,
        le_bytes(a as nat, 16) == le_bytes(b as nat, 16) ==> a == b,
{
    lemma_pow256_16();
    lemma_le_bytes_value(a as nat, 16);
    lemma_le_bytes_value(b as nat, 16);
}

} // verus!
