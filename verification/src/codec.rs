//! Verified text codecs used by the document schema: decimal numerals for
//! entity references and hexadecimal for key material.

use vstd::prelude::*;

verus! {

// ---------------------------------------------------------------------------
// String equality
// ---------------------------------------------------------------------------

/// Compares two string slices by their character sequences.
pub fn str_eq(a: &str, b: &str) -> (r: bool)
    ensures
        r == (a@ == b@),
{
    let n = a.unicode_len();
    let m = b.unicode_len();
    if n != m {
        assert(a@ != b@) by {
            assert(a@.len() != b@.len());
        }
        return false;
    }
    let mut i: usize = 0;
    while i < n
        invariant
            n == a@.len(),
            n == b@.len(),
            0 <= i <= n,
            forall|j: int| 0 <= j < i ==> a@[j] == b@[j],
        decreases n - i,
    {
        let ca = a.get_char(i);
        let cb = b.get_char(i);
        if ca != cb {
            assert(a@ != b@) by {
                assert(a@[i as int] != b@[i as int]);
            }
            return false;
        }
        i += 1;
    }
    proof {
        assert(a@ =~= b@);
    }
    true
}

// ---------------------------------------------------------------------------
// Decimal numerals
// ---------------------------------------------------------------------------

/// Whether `c` is a decimal digit.
pub open spec fn is_digit(c: char) -> bool {
    48 <= c as u32 <= 57
}

/// The value of a decimal digit.
pub open spec fn digit_val(c: char) -> int {
    c as u32 - 48
}

/// The character for a decimal digit value.
pub open spec fn digit_char(d: int) -> char {
    if d == 0 {
        '0'
    } else if d == 1 {
        '1'
    } else if d == 2 {
        '2'
    } else if d == 3 {
        '3'
    } else if d == 4 {
        '4'
    } else if d == 5 {
        '5'
    } else if d == 6 {
        '6'
    } else if d == 7 {
        '7'
    } else if d == 8 {
        '8'
    } else {
        '9'
    }
}

/// Whether every character of `s` is a decimal digit.
pub open spec fn all_digits(s: Seq<char>) -> bool {
    forall|j: int| 0 <= j < s.len() ==> is_digit(s[j])
}

/// The decimal numeral of `n`, most significant digit first, no leading
/// zeroes (except for the numeral of zero itself).
pub open spec fn dec_str(n: nat) -> Seq<char>
    decreases n,
{
    if n < 10 {
        seq![digit_char(n as int)]
    } else {
        dec_str(n / 10) + seq![digit_char((n % 10) as int)]
    }
}

/// The value of a digit string, most significant digit first.
pub open spec fn dec_val(s: Seq<char>) -> int
    decreases s.len(),
{
    if s.len() == 0 {
        0
    } else {
        10 * dec_val(s.drop_last()) + digit_val(s.last())
    }
}

/// What decoding a decimal numeral yields: defined exactly when `s` is a
/// non-empty digit string whose value fits in 64 unsigned bits.
pub open spec fn parse_dec(s: Seq<char>) -> Option<u64> {
    if s.len() == 0 || !all_digits(s) || dec_val(s) > u64::MAX {
        None
    } else {
        Some(dec_val(s) as u64)
    }
}

/// A digit value yields a digit character, and back.
pub proof fn lemma_digit_char(d: int)
    requires
        0 <= d <= 9,
    ensures
        is_digit(digit_char(d)),
        digit_val(digit_char(d)) == d,
{
}

/// Every character of a decimal numeral is a digit.
pub proof fn lemma_dec_str_digits(n: nat)
    ensures
        dec_str(n).len() >= 1,
        all_digits(dec_str(n)),
    decreases n,
{
    if n < 10 {
        lemma_digit_char(n as int);
    } else {
        lemma_dec_str_digits(n / 10);
        lemma_digit_char((n % 10) as int);
        assert forall|j: int| 0 <= j < dec_str(n).len() implies is_digit(dec_str(n)[j]) by {
            if j < dec_str(n / 10).len() {
                assert(dec_str(n)[j] == dec_str(n / 10)[j]);
            }
        }
    }
}

/// A digit string is non-negative.
pub proof fn lemma_dec_val_nonneg(s: Seq<char>)
    requires
        all_digits(s),
    ensures
        dec_val(s) >= 0,
    decreases s.len(),
{
    if s.len() > 0 {
        assert(all_digits(s.drop_last()));
        lemma_dec_val_nonneg(s.drop_last());
    }
}

/// Decoding inverts encoding for every 64-bit value.
pub proof fn lemma_dec_val_of_dec_str(n: nat)
    ensures
        dec_val(dec_str(n)) == n,
    decreases n,
{
    if n < 10 {
        lemma_digit_char(n as int);
        let s = dec_str(n);
        assert(s =~= seq![digit_char(n as int)]);
        assert(s.drop_last() =~= Seq::<char>::empty());
        assert(s.last() == digit_char(n as int));
        assert(dec_val(s) == 10 * dec_val(Seq::<char>::empty()) + digit_val(s.last()));
        assert(dec_val(Seq::<char>::empty()) == 0);
    } else {
        lemma_dec_val_of_dec_str(n / 10);
        lemma_digit_char((n % 10) as int);
        let s = dec_str(n);
        assert(s =~= dec_str(n / 10) + seq![digit_char((n % 10) as int)]);
        assert(s.drop_last() =~= dec_str(n / 10));
        assert(s.last() == digit_char((n % 10) as int));
        assert(dec_val(s) == 10 * dec_val(s.drop_last()) + digit_val(s.last()));
        assert(dec_val(s.drop_last()) == n / 10);
        assert(digit_val(s.last()) == (n % 10) as int);
        assert(10 * ((n / 10) as int) + ((n % 10) as int) == n as int) by {
            vstd::arithmetic::div_mod::lemma_fundamental_div_mod(n as int, 10);
            assert((n / 10) as int == n as int / 10);
            assert((n % 10) as int == n as int % 10);
        }
    }
}

/// Decoding a decimal numeral of a 64-bit value succeeds and returns it.
pub proof fn lemma_dec_round_trip(n: u64)
    ensures
        parse_dec(dec_str(n as nat)) == Some(n),
{
    lemma_dec_str_digits(n as nat);
    lemma_dec_val_of_dec_str(n as nat);
}

/// One decoding step: the value of a prefix one digit longer.
proof fn lemma_dec_val_take_succ(s: Seq<char>, i: int)
    requires
        0 <= i < s.len(),
    ensures
        dec_val(s.take(i + 1)) == 10 * dec_val(s.take(i)) + digit_val(s[i]),
{
    assert(s.take(i + 1).drop_last() =~= s.take(i));
    assert(s.take(i + 1).last() == s[i]);
}

/// Extending a digit string never shrinks its value.
proof fn lemma_dec_val_mono(s: Seq<char>, k: int)
    requires
        all_digits(s),
        0 <= k <= s.len(),
    ensures
        dec_val(s) >= dec_val(s.take(k)),
    decreases s.len() - k,
{
    if k < s.len() {
        lemma_dec_val_take_succ(s, k);
        assert(all_digits(s.take(k)));
        lemma_dec_val_nonneg(s.take(k));
        lemma_dec_val_mono(s, k + 1);
    } else {
        assert(s.take(k) =~= s);
    }
}

/// Renders `n` as its decimal numeral.
pub fn dec_encode(n: u64) -> (r: String)
    ensures
        r@ == dec_str(n as nat),
    decreases n,
{
    if n < 10 {
        let s = String::from_str(digit_str(n));
        s
    } else {
        let mut s = dec_encode(n / 10);
        s.append(digit_str(n % 10));
        proof {
            assert((n / 10) as nat == (n as nat) / 10);
            assert((n % 10) as int == ((n as nat) % 10) as int);
        }
        s
    }
}

/// The one-character string for a digit value.
fn digit_str(d: u64) -> (r: &'static str)
    requires
        d < 10,
    ensures
        r@ == seq![digit_char(d as int)],
{
    proof {
        reveal_strlit("0");
        reveal_strlit("1");
        reveal_strlit("2");
        reveal_strlit("3");
        reveal_strlit("4");
        reveal_strlit("5");
        reveal_strlit("6");
        reveal_strlit("7");
        reveal_strlit("8");
        reveal_strlit("9");
    }
    let r = match d {
        0 => "0",
        1 => "1",
        2 => "2",
        3 => "3",
        4 => "4",
        5 => "5",
        6 => "6",
        7 => "7",
        8 => "8",
        _ => "9",
    };
    proof {
        assert(r@ =~= seq![digit_char(d as int)]);
    }
    r
}

/// Decodes a decimal numeral. Returns `None` exactly when `s` is empty,
/// holds a non-digit, or its value exceeds 64 unsigned bits.
pub fn dec_decode(s: &str) -> (r: Option<u64>)
    ensures
        r == parse_dec(s@),
{
    let n = s.unicode_len();
    if n == 0 {
        return None;
    }
    let mut acc: u64 = 0;
    let mut i: usize = 0;
    while i < n
        invariant
            n == s@.len(),
            0 <= i <= n,
            all_digits(s@.take(i as int)),
            acc == dec_val(s@.take(i as int)),
        decreases n - i,
    {
        let c = s.get_char(i);
        let v = c as u32;
        if v < 48 || v > 57 {
            assert(!all_digits(s@)) by {
                assert(!is_digit(s@[i as int]));
            }
            return None;
        }
        let d = (v - 48) as u64;
        proof {
            lemma_dec_val_take_succ(s@, i as int);
        }
        if acc > (u64::MAX - d) / 10 {
            proof {
                assert(10 * (acc as int) + d > u64::MAX);
                if all_digits(s@) {
                    lemma_dec_val_mono(s@, i as int + 1);
                }
            }
            return None;
        }
        acc = acc * 10 + d;
        proof {
            assert(s@.take(i + 1).drop_last() =~= s@.take(i as int));
            assert(all_digits(s@.take(i + 1)));
        }
        i += 1;
    }
    proof {
        assert(s@.take(n as int) =~= s@);
    }
    Some(acc)
}

// ---------------------------------------------------------------------------
// Hexadecimal
// ---------------------------------------------------------------------------

/// Whether `c` is a hexadecimal digit, either case.
pub open spec fn is_hex_digit(c: char) -> bool {
    let v = c as u32;
    (48 <= v <= 57) || (97 <= v <= 102) || (65 <= v <= 70)
}

/// The value of a hexadecimal digit, either case.
pub open spec fn hex_digit_val(c: char) -> int {
    let v = c as u32;
    if 48 <= v <= 57 {
        v - 48
    } else if 97 <= v <= 102 {
        v - 87
    } else {
        v - 55
    }
}

/// The lower-case character for a hexadecimal digit value.
pub open spec fn hex_char(d: int) -> char {
    if d < 10 {
        digit_char(d)
    } else if d == 10 {
        'a'
    } else if d == 11 {
        'b'
    } else if d == 12 {
        'c'
    } else if d == 13 {
        'd'
    } else if d == 14 {
        'e'
    } else {
        'f'
    }
}

/// The lower-case hexadecimal rendering of a byte string, two characters per
/// byte, in order.
pub open spec fn hex_str(b: Seq<u8>) -> Seq<char>
    decreases b.len(),
{
    if b.len() == 0 {
        Seq::empty()
    } else {
        hex_str(b.drop_last()) + seq![
            hex_char(b.last() as int / 16),
            hex_char(b.last() as int % 16),
        ]
    }
}

/// What decoding a hexadecimal string yields: defined exactly when the
/// length is even and every character is a hexadecimal digit.
pub open spec fn parse_hex(s: Seq<char>) -> Option<Seq<u8>>
    decreases s.len(),
{
    if s.len() == 0 {
        Some(Seq::empty())
    } else if s.len() == 1 {
        None
    } else {
        let hi = s[s.len() - 2];
        let lo = s.last();
        if is_hex_digit(hi) && is_hex_digit(lo) {
            match parse_hex(s.take(s.len() - 2)) {
                Some(p) => Some(p.push((16 * hex_digit_val(hi) + hex_digit_val(lo)) as u8)),
                None => None,
            }
        } else {
            None
        }
    }
}

/// A hexadecimal digit value yields a digit character, and back.
pub proof fn lemma_hex_char(d: int)
    requires
        0 <= d < 16,
    ensures
        is_hex_digit(hex_char(d)),
        hex_digit_val(hex_char(d)) == d,
{
}

/// Decoding inverts encoding for every byte string.
pub proof fn lemma_hex_round_trip(b: Seq<u8>)
    ensures
        parse_hex(hex_str(b)) == Some(b),
    decreases b.len(),
{
    if b.len() == 0 {
        assert(hex_str(b) =~= Seq::<char>::empty());
        assert(parse_hex(hex_str(b)) == Some(Seq::<u8>::empty()));
        assert(Seq::<u8>::empty() =~= b);
    } else {
        let v = b.last() as int;
        lemma_hex_round_trip(b.drop_last());
        lemma_hex_char(v / 16);
        lemma_hex_char(v % 16);
        let s = hex_str(b);
        assert(s.len() == hex_str(b.drop_last()).len() + 2);
        assert(s[s.len() - 2] == hex_char(v / 16));
        assert(s.last() == hex_char(v % 16));
        assert(s.take(s.len() - 2) =~= hex_str(b.drop_last()));
        assert(16 * (v / 16) + v % 16 == v) by {
            vstd::arithmetic::div_mod::lemma_fundamental_div_mod(v, 16);
        }
        assert(b.drop_last().push(b.last()) =~= b);
    }
}

/// The one-character string for a hexadecimal digit value.
pub fn hex_digit_str(d: u8) -> (r: &'static str)
    requires
        d < 16,
    ensures
        r@ == seq![hex_char(d as int)],
{
    if d < 10 {
        digit_str(d as u64)
    } else {
        proof {
            reveal_strlit("a");
            reveal_strlit("b");
            reveal_strlit("c");
            reveal_strlit("d");
            reveal_strlit("e");
            reveal_strlit("f");
        }
        let r = match d {
            10 => "a",
            11 => "b",
            12 => "c",
            13 => "d",
            14 => "e",
            _ => "f",
        };
        proof {
            assert(r@ =~= seq![hex_char(d as int)]);
        }
        r
    }
}

/// Renders a byte string as lower-case hexadecimal.
pub fn hex_encode(b: &Vec<u8>) -> (r: String)
    ensures
        r@ == hex_str(b@),
{
    let mut s = String::new();
    let mut i: usize = 0;
    while i < b.len()
        invariant
            0 <= i <= b@.len(),
            s@ == hex_str(b@.take(i as int)),
        decreases b@.len() - i,
    {
        let byte = b[i];
        s.append(hex_digit_str(byte / 16));
        s.append(hex_digit_str(byte % 16));
        proof {
            let t = b@.take(i + 1);
            assert(t.drop_last() =~= b@.take(i as int));
            assert(t.last() == b@[i as int]);
        }
        i += 1;
    }
    proof {
        assert(b@.take(b@.len() as int) =~= b@);
    }
    s
}

/// A string of odd length is not a hexadecimal byte string.
proof fn lemma_parse_hex_odd(s: Seq<char>)
    requires
        s.len() % 2 == 1,
    ensures
        parse_hex(s) is None,
    decreases s.len(),
{
    if s.len() > 1 {
        let p = s.take(s.len() - 2);
        assert(p.len() % 2 == 1);
        lemma_parse_hex_odd(p);
    }
}

/// Once a prefix fails to decode, the whole string fails.
proof fn lemma_parse_hex_prefix_none(s: Seq<char>, m: int)
    requires
        0 <= m <= s.len(),
        m % 2 == 0,
        s.len() % 2 == 0,
        parse_hex(s.take(m)) is None,
    ensures
        parse_hex(s) is None,
    decreases s.len() - m,
{
    if m < s.len() {
        let t = s.take(m + 2);
        assert(t.take(m) =~= s.take(m));
        assert(parse_hex(t) is None);
        lemma_parse_hex_prefix_none(s, m + 2);
    } else {
        assert(s.take(m) =~= s);
    }
}

/// Decodes a hexadecimal string. Returns `None` exactly when the length is
/// odd or a character is not a hexadecimal digit.
pub fn hex_decode(s: &str) -> (r: Option<Vec<u8>>)
    ensures
        match r {
            Some(v) => parse_hex(s@) == Some(v@),
            None => parse_hex(s@) is None,
        },
{
    let n = s.unicode_len();
    if n % 2 != 0 {
        proof {
            lemma_parse_hex_odd(s@);
        }
        return None;
    }
    let mut acc: Vec<u8> = Vec::new();
    let mut i: usize = 0;
    while i + 1 < n
        invariant
            n == s@.len(),
            n % 2 == 0,
            i % 2 == 0,
            0 <= i <= n,
            parse_hex(s@.take(i as int)) == Some(acc@),
        decreases n - i,
    {
        let hi = hex_val(s.get_char(i));
        let lo = hex_val(s.get_char(i + 1));
        proof {
            let t = s@.take(i + 2);
            assert(t.take(i as int) =~= s@.take(i as int));
            assert(t[t.len() - 2] == s@[i as int]);
            assert(t.last() == s@[i + 1]);
        }
        match (hi, lo) {
            (Some(h), Some(l)) => {
                acc.push(h * 16 + l);
                i += 2;
            },
            _ => {
                proof {
                    assert(parse_hex(s@.take(i + 2)) is None);
                    lemma_parse_hex_prefix_none(s@, i + 2);
                }
                return None;
            },
        }
    }
    proof {
        assert(s@.take(n as int) =~= s@);
    }
    Some(acc)
}

/// The value of one hexadecimal digit character, if it is one.
fn hex_val(c: char) -> (r: Option<u8>)
    ensures
        match r {
            Some(v) => is_hex_digit(c) && v == hex_digit_val(c) && v < 16,
            None => !is_hex_digit(c),
        },
{
    let v = c as u32;
    if 48 <= v && v <= 57 {
        Some((v - 48) as u8)
    } else if 97 <= v && v <= 102 {
        Some((v - 87) as u8)
    } else if 65 <= v && v <= 70 {
        Some((v - 55) as u8)
    } else {
        None
    }
}

} // verus!
