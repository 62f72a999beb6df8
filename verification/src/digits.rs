//! Fixed-width hexadecimal and decimal digit strings.
//!
//! The cookie payload encoding stores timestamps as 16 lower-case hex digits
//! (most significant first), and the image-filename rules print slot numbers
//! in decimal. Both directions are verified against the spec functions here.

use vstd::prelude::*;

verus! {

/// The hex digit character for a value below 16.
pub open spec fn hex_char_of(d: int) -> char {
    if d == 0 {
        '0'
    } else if d == 1 {
        '1'
    } else if d == 2 {
        '2'
    } else if d == 3 {
        '3'
    } else if d == 4 {
        '4'
    } else if d == 5 {
        '5'
    } else if d == 6 {
        '6'
    } else if d == 7 {
        '7'
    } else if d == 8 {
        '8'
    } else if d == 9 {
        '9'
    } else if d == 10 {
        'a'
    } else if d == 11 {
        'b'
    } else if d == 12 {
        'c'
    } else if d == 13 {
        'd'
    } else if d == 14 {
        'e'
    } else if d == 15 {
        'f'
    } else {
        '?'
    }
}

/// The value of a hex digit character; 16 marks a character that is no hex digit.
pub open spec fn hex_val_of(c: char) -> int {
    if '0' <= c && c <= '9' {
        c as int - '0' as int
    } else if 'a' <= c && c <= 'f' {
        10 + c as int - 'a' as int
    } else {
        16
    }
}

pub open spec fn is_hex_digit(c: char) -> bool {
    hex_val_of(c) < 16
}

pub open spec fn all_hex(s: Seq<char>) -> bool {
    forall|i: int| 0 <= i < s.len() ==> is_hex_digit(#[trigger] s[i])
}

/// `k` hex digits of `n`, most significant first.
pub open spec fn hex_chars_of(n: nat, k: nat) -> Seq<char>
    decreases k,
{
    if k == 0 {
        Seq::empty()
    } else {
        hex_chars_of(n / 16, (k - 1) as nat).push(hex_char_of((n % 16) as int))
    }
}

/// The value of a string of hex digits, most significant first.
pub open spec fn hex_value(s: Seq<char>) -> int
    decreases s.len(),
{
    if s.len() == 0 {
        0
    } else {
        hex_value(s.drop_last()) * 16 + hex_val_of(s.last())
    }
}

pub open spec fn pow16(k: nat) -> nat
    decreases k,
{
    if k == 0 {
        1
    } else {
        16 * pow16((k - 1) as nat)
    }
}

pub proof fn lemma_hex_char_val(d: int)
    requires
        0 <= d < 16,
    ensures
        hex_val_of(hex_char_of(d)) == d,
        is_hex_digit(hex_char_of(d)),
{
}

/// Digit strings of equal width reproduce the number they were made from.
pub proof fn lemma_hex_round_trip(n: nat, k: nat)
    requires
        n < pow16(k),
    ensures
        hex_chars_of(n, k).len() == k,
        all_hex(hex_chars_of(n, k)),
        hex_value(hex_chars_of(n, k)) == n,
    decreases k,
{
    if k == 0 {
    } else {
        let d = (n % 16) as int;
        assert(n / 16 < pow16((k - 1) as nat)) by (nonlinear_arith)
            requires
                n < pow16(k),
                pow16(k) == 16 * pow16((k - 1) as nat),
        ;
        lemma_hex_round_trip(n / 16, (k - 1) as nat);
        lemma_hex_char_val(d);
        let s = hex_chars_of(n, k);
        let rec = hex_chars_of(n / 16, (k - 1) as nat);
        assert(s.drop_last() =~= rec);
        assert(hex_value(s) == hex_value(rec) * 16 + d);
        assert(n / 16 * 16 + n % 16 == n) by (nonlinear_arith);
        assert forall|i: int| 0 <= i < s.len() implies is_hex_digit(#[trigger] s[i]) by {
            if i < k - 1 {
                assert(s[i] == rec[i]);
            }
        }
    }
}

/// Every all-hex string's value lies below `pow16` of its length.
pub proof fn lemma_hex_value_bound(s: Seq<char>)
    requires
        all_hex(s),
    ensures
        0 <= hex_value(s) < pow16(s.len()),
    decreases s.len(),
{
    if s.len() == 0 {
    } else {
        assert(all_hex(s.drop_last())) by {
            assert(forall|i: int|
                0 <= i < s.len() - 1 ==> s.drop_last()[i] == #[trigger] s[i]);
        }
        lemma_hex_value_bound(s.drop_last());
        let v = hex_value(s.drop_last());
        let p = pow16((s.len() - 1) as nat);
        assert(is_hex_digit(s.last()));
        assert(v * 16 + 15 < 16 * p) by (nonlinear_arith)
            requires
                0 <= v < p,
        ;
    }
}

pub proof fn lemma_pow16_mono(j: nat, k: nat)
    requires
        j <= k,
    ensures
        pow16(j) <= pow16(k),
    decreases k,
{
    if j < k {
        lemma_pow16_mono(j, (k - 1) as nat);
        assert(pow16(k) == 16 * pow16((k - 1) as nat));
    }
}

fn hex_char(d: u8) -> (c: char)
    requires
        d < 16,
    ensures
        c == hex_char_of(d as int),
{
    if d == 0 {
        '0'
    } else if d == 1 {
        '1'
    } else if d == 2 {
        '2'
    } else if d == 3 {
        '3'
    } else if d == 4 {
        '4'
    } else if d == 5 {
        '5'
    } else if d == 6 {
        '6'
    } else if d == 7 {
        '7'
    } else if d == 8 {
        '8'
    } else if d == 9 {
        '9'
    } else if d == 10 {
        'a'
    } else if d == 11 {
        'b'
    } else if d == 12 {
        'c'
    } else if d == 13 {
        'd'
    } else if d == 14 {
        'e'
    } else {
        'f'
    }
}

fn hex_val(c: char) -> (r: u8)
    ensures
        r as int == hex_val_of(c),
        r <= 16,
{
    if '0' <= c && c <= '9' {
        (c as u32 - '0' as u32) as u8
    } else if 'a' <= c && c <= 'f' {
        (10 + c as u32 - 'a' as u32) as u8
    } else {
        16
    }
}

/// The hex digits of `n`, `k` wide, most significant first.
pub fn hex_chars(n: u64, k: usize) -> (r: Vec<char>)
    ensures
        r@ == hex_chars_of(n as nat, k as nat),
    decreases k,
{
    if k == 0 {
        let r: Vec<char> = Vec::new();
        assert(r@ =~= hex_chars_of(n as nat, 0));
        r
    } else {
        let mut r = hex_chars(n / 16, k - 1);
        r.push(hex_char((n % 16) as u8));
        r
    }
}

/// Reads 16 hex digits of `s` starting at `from`; `None` if one is no hex digit.
pub fn hex16_value_at(s: &Vec<char>, from: usize) -> (r: Option<u64>)
    requires
        from + 16 <= s@.len(),
    ensures
        ({
            let sub = s@.subrange(from as int, from + 16);
            match r {
                Some(n) => all_hex(sub) && n as int == hex_value(sub),
                None => !all_hex(sub),
            }
        }),
{
    let ghost sub = s@.subrange(from as int, from + 16);
    let slen = s.len();
    let mut acc: u64 = 0;
    let mut j: usize = 0;
    while j < 16
        invariant
            j <= 16,
            slen == s@.len(),
            from + 16 <= slen,
            sub == s@.subrange(from as int, from + 16),
            all_hex(sub.take(j as int)),
            acc as int == hex_value(sub.take(j as int)),
            (acc as nat) < pow16(j as nat),
        decreases 16 - j,
    {
        let c = s[from + j];
        assert(c == sub[j as int]);
        let v = hex_val(c);
        if v == 16 {
            assert(!is_hex_digit(sub[j as int]));
            return None;
        }
        proof {
            lemma_pow16_mono(j as nat, 15);
            assert(pow16(16) == 16 * pow16(15));
            assert(acc * 16 + 15 < 16 * pow16(15)) by (nonlinear_arith)
                requires
                    (acc as nat) < pow16(15),
            ;
            assert(pow16(16) == 0x1_0000_0000_0000_0000) by {
                reveal_with_fuel(pow16, 17);
            }
        }
        let next = acc * 16 + (v as u64);
        proof {
            let t = sub.take(j + 1);
            assert(t.drop_last() =~= sub.take(j as int));
            assert(t.last() == sub[j as int]);
        }
        acc = next;
        j = j + 1;
    }
    assert(sub.take(16) =~= sub);
    proof {
        lemma_hex_value_bound(sub);
    }
    Some(acc)
}

/// The decimal digit character for a value below 10.
pub open spec fn dec_char_of(d: int) -> char {
    if d == 0 {
        '0'
    } else if d == 1 {
        '1'
    } else if d == 2 {
        '2'
    } else if d == 3 {
        '3'
    } else if d == 4 {
        '4'
    } else if d == 5 {
        '5'
    } else if d == 6 {
        '6'
    } else if d == 7 {
        '7'
    } else if d == 8 {
        '8'
    } else if d == 9 {
        '9'
    } else {
        '?'
    }
}

/// The value of a decimal digit character; 10 marks a character that is no digit.
pub open spec fn dec_val_of(c: char) -> int {
    if '0' <= c && c <= '9' {
        c as int - '0' as int
    } else {
        10
    }
}

pub open spec fn is_dec_digit(c: char) -> bool {
    dec_val_of(c) < 10
}

pub open spec fn all_dec(s: Seq<char>) -> bool {
    forall|i: int| 0 <= i < s.len() ==> is_dec_digit(#[trigger] s[i])
}

/// The decimal digits of `n`, without leading zeros (a single zero for 0).
pub open spec fn dec_chars_of(n: nat) -> Seq<char>
    decreases n,
{
    if n < 10 {
        seq![dec_char_of(n as int)]
    } else {
        dec_chars_of(n / 10).push(dec_char_of((n % 10) as int))
    }
}

/// The value of a string of decimal digits, most significant first.
pub open spec fn dec_value(s: Seq<char>) -> int
    decreases s.len(),
{
    if s.len() == 0 {
        0
    } else {
        dec_value(s.drop_last()) * 10 + dec_val_of(s.last())
    }
}

/// What parsing a decimal string yields: the digits' value when the string is
/// nonempty, all digits, and in range; otherwise nothing.
pub open spec fn parse_u32_spec(s: Seq<char>) -> Option<u32> {
    if s.len() > 0 && all_dec(s) && dec_value(s) <= u32::MAX {
        Some(dec_value(s) as u32)
    } else {
        None
    }
}

fn dec_char(d: u8) -> (c: char)
    requires
        d < 10,
    ensures
        c == dec_char_of(d as int),
{
    if d == 0 {
        '0'
    } else if d == 1 {
        '1'
    } else if d == 2 {
        '2'
    } else if d == 3 {
        '3'
    } else if d == 4 {
        '4'
    } else if d == 5 {
        '5'
    } else if d == 6 {
        '6'
    } else if d == 7 {
        '7'
    } else if d == 8 {
        '8'
    } else {
        '9'
    }
}

fn dec_val(c: char) -> (r: u8)
    ensures
        r as int == dec_val_of(c),
        r <= 10,
{
    if '0' <= c && c <= '9' {
        (c as u32 - '0' as u32) as u8
    } else {
        10
    }
}

/// The decimal digits of `n`, most significant first.
pub fn dec_chars(n: u32) -> (r: Vec<char>)
    ensures
        r@ == dec_chars_of(n as nat),
    decreases n,
{
    if n < 10 {
        let mut r: Vec<char> = Vec::new();
        r.push(dec_char(n as u8));
        assert(r@ =~= dec_chars_of(n as nat));
        r
    } else {
        let mut r = dec_chars(n / 10);
        r.push(dec_char((n % 10) as u8));
        r
    }
}

proof fn lemma_dec_value_take_step(s: Seq<char>, j: int)
    requires
        0 <= j < s.len(),
    ensures
        dec_value(s.take(j + 1)) == dec_value(s.take(j)) * 10 + dec_val_of(s[j]),
{
    let t = s.take(j + 1);
    assert(t.drop_last() =~= s.take(j));
    assert(t.last() == s[j]);
}

/// Once a digit prefix exceeds a bound, appending digits cannot shrink it.
proof fn lemma_dec_value_grows(s: Seq<char>, j: int)
    requires
        0 <= j <= s.len(),
        all_dec(s),
        dec_value(s.take(j)) > u32::MAX,
    ensures
        dec_value(s) > u32::MAX,
    decreases s.len() - j,
{
    if j == s.len() {
        assert(s.take(j) =~= s);
    } else {
        lemma_dec_value_take_step(s, j);
        assert(dec_value(s.take(j)) * 10 + dec_val_of(s[j]) > u32::MAX) by (nonlinear_arith)
            requires
                dec_value(s.take(j)) > u32::MAX,
                dec_val_of(s[j]) >= 0,
        ;
        lemma_dec_value_grows(s, j + 1);
    }
}

/// Parses a string of decimal digits as the filename rules read them:
/// every character a digit, value within `u32`.
pub fn parse_u32_chars(s: &Vec<char>) -> (r: Option<u32>)
    ensures
        r == parse_u32_spec(s@),
{
    if s.len() == 0 {
        return None;
    }
    let mut acc: u64 = 0;
    let mut j: usize = 0;
    while j < s.len()
        invariant
            j <= s@.len(),
            all_dec(s@.take(j as int)),
            acc as int == dec_value(s@.take(j as int)),
            acc <= u32::MAX,
        decreases s@.len() - j,
    {
        let c = s[j];
        let v = dec_val(c);
        if v == 10 {
            assert(!is_dec_digit(s@[j as int]));
            return None;
        }
        proof {
            lemma_dec_value_take_step(s@, j as int);
        }
        let next = acc * 10 + (v as u64);
        if next > u32::MAX as u64 {
            proof {
                assert(all_dec(s@.take(j + 1))) by {
                    assert(forall|i: int|
                        0 <= i < j + 1 ==> s@.take(j + 1)[i] == #[trigger] s@[i]);
                }
                if all_dec(s@) {
                    lemma_dec_value_grows(s@, j + 1);
                }
            }
            return None;
        }
        acc = next;
        j = j + 1;
    }
    assert(s@.take(s@.len() as int) =~= s@);
    Some(acc as u32)
}

} // verus!
