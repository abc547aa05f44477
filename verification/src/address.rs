//! Bluetooth device addresses: the canonical key under which a scanned device
//! is stored, and the 48-bit value of a textual `AA:BB:CC:DD:EE:FF` address.
use vstd::prelude::*;
use crate::text::{
    ascii_lower, ascii_upper, ascii_upper_spec, chars_of, eq_ignore_ascii_case_spec, is_white_space,
    to_ascii_uppercase, trim, trim_end_spec, trim_spec, trim_start_spec,
};

verus! {

/// The canonical form of an address: surrounding white space removed and
/// ASCII letters in upper case.
pub open spec fn canonical_address_spec(address: Seq<char>) -> Seq<char> {
    ascii_upper_spec(trim_spec(address))
}

/// Trims `address` and normalises its ASCII letters to upper case, so that
/// the same device is found under one key however its address was written.
pub fn canonical_address(address: &str) -> (r: String)
    ensures
        r@ == canonical_address_spec(address@),
{
    let trimmed = trim(address);
    to_ascii_uppercase(trimmed.as_str())
}

proof fn lemma_upper_keeps_white_space(c: char)
    ensures
        is_white_space(ascii_upper(c)) == is_white_space(c),
        ascii_upper(ascii_upper(c)) == ascii_upper(c),
{
}

/// A sequence whose ends are not white space is its own trimmed form.
proof fn lemma_trim_of_trimmed(t: Seq<char>)
    requires
        t.len() > 0 ==> !is_white_space(t[0]) && !is_white_space(t.last()),
    ensures
        trim_spec(t) == t,
{
}

proof fn lemma_trim_start_shape(s: Seq<char>)
    ensures
        trim_start_spec(s).len() > 0 ==> !is_white_space(trim_start_spec(s)[0]),
        exists|k: int| 0 <= k <= s.len() && trim_start_spec(s) == s.skip(k),
    decreases s.len(),
{
    if s.len() > 0 && is_white_space(s[0]) {
        lemma_trim_start_shape(s.drop_first());
        let k = choose|k: int|
            0 <= k <= s.drop_first().len() && trim_start_spec(s.drop_first())
                == s.drop_first().skip(k);
        assert(s.drop_first().skip(k) =~= s.skip(k + 1));
    } else {
        assert(s.skip(0) =~= s);
    }
}

proof fn lemma_trim_end_shape(s: Seq<char>)
    requires
        s.len() > 0 ==> !is_white_space(s[0]),
    ensures
        trim_end_spec(s).len() > 0 ==> !is_white_space(trim_end_spec(s).last()) && !is_white_space(
            trim_end_spec(s)[0],
        ),
    decreases s.len(),
{
    if s.len() > 0 && is_white_space(s.last()) {
        lemma_trim_end_shape(s.drop_last());
    }
}

proof fn lemma_trim_shape(s: Seq<char>)
    ensures
        trim_spec(s).len() > 0 ==> !is_white_space(trim_spec(s)[0]) && !is_white_space(
            trim_spec(s).last(),
        ),
{
    lemma_trim_start_shape(s);
    lemma_trim_end_shape(trim_start_spec(s));
}

/// Canonicalising an address twice gives the same key as canonicalising it
/// once.
pub proof fn lemma_canonical_address_idempotent(address: Seq<char>)
    ensures
        canonical_address_spec(canonical_address_spec(address)) == canonical_address_spec(address),
{
    let t = trim_spec(address);
    let u = ascii_upper_spec(t);
    lemma_trim_shape(address);
    if u.len() > 0 {
        lemma_upper_keeps_white_space(t[0]);
        lemma_upper_keeps_white_space(t.last());
        assert(u.last() == ascii_upper(t.last()));
    }
    lemma_trim_of_trimmed(u);
    assert forall|i: int| 0 <= i < u.len() implies #[trigger] ascii_upper(u[i]) == u[i] by {
        lemma_upper_keeps_white_space(t[i]);
    }
    assert(ascii_upper_spec(u) =~= u);
}

proof fn lemma_same_fold_same_white_space(a: char, b: char)
    requires
        ascii_lower(a) == ascii_lower(b),
    ensures
        is_white_space(a) == is_white_space(b),
        ascii_upper(a) == ascii_upper(b),
{
}

proof fn lemma_trim_start_pair(a: Seq<char>, b: Seq<char>) -> (k: int)
    requires
        eq_ignore_ascii_case_spec(a, b),
    ensures
        0 <= k <= a.len(),
        trim_start_spec(a) == a.skip(k),
        trim_start_spec(b) == b.skip(k),
    decreases a.len(),
{
    if a.len() > 0 {
        assert(ascii_lower(a[0]) == ascii_lower(b[0]));
        lemma_same_fold_same_white_space(a[0], b[0]);
    }
    if a.len() > 0 && is_white_space(a[0]) {
        assert forall|i: int| 0 <= i < a.drop_first().len() implies #[trigger] ascii_lower(
            a.drop_first()[i],
        ) == ascii_lower(b.drop_first()[i]) by {
            assert(ascii_lower(a[i + 1]) == ascii_lower(b[i + 1]));
        }
        let k = lemma_trim_start_pair(a.drop_first(), b.drop_first());
        assert(a.drop_first().skip(k) =~= a.skip(k + 1));
        assert(b.drop_first().skip(k) =~= b.skip(k + 1));
        k + 1
    } else {
        assert(a.skip(0) =~= a);
        assert(b.skip(0) =~= b);
        0
    }
}

proof fn lemma_trim_end_pair(a: Seq<char>, b: Seq<char>) -> (m: int)
    requires
        eq_ignore_ascii_case_spec(a, b),
    ensures
        0 <= m <= a.len(),
        trim_end_spec(a) == a.take(m),
        trim_end_spec(b) == b.take(m),
    decreases a.len(),
{
    if a.len() > 0 {
        assert(ascii_lower(a[a.len() - 1]) == ascii_lower(b[b.len() - 1]));
        lemma_same_fold_same_white_space(a.last(), b.last());
    }
    if a.len() > 0 && is_white_space(a.last()) {
        assert forall|i: int| 0 <= i < a.drop_last().len() implies #[trigger] ascii_lower(
            a.drop_last()[i],
        ) == ascii_lower(b.drop_last()[i]) by {
            assert(ascii_lower(a[i]) == ascii_lower(b[i]));
        }
        let m = lemma_trim_end_pair(a.drop_last(), b.drop_last());
        assert(a.drop_last().take(m) =~= a.take(m));
        assert(b.drop_last().take(m) =~= b.take(m));
        m
    } else {
        assert(a.take(a.len() as int) =~= a);
        assert(b.take(b.len() as int) =~= b);
        a.len() as int
    }
}

/// Two addresses that differ only in the case of their ASCII letters have
/// the same canonical key.
pub proof fn lemma_canonical_address_ignores_ascii_case(a: Seq<char>, b: Seq<char>)
    requires
        eq_ignore_ascii_case_spec(a, b),
    ensures
        canonical_address_spec(a) == canonical_address_spec(b),
{
    let k = lemma_trim_start_pair(a, b);
    let sa = a.skip(k);
    let sb = b.skip(k);
    assert forall|i: int| 0 <= i < sa.len() implies #[trigger] ascii_lower(sa[i]) == ascii_lower(
        sb[i],
    ) by {
        assert(ascii_lower(a[i + k]) == ascii_lower(b[i + k]));
    }
    let m = lemma_trim_end_pair(sa, sb);
    let ta = sa.take(m);
    let tb = sb.take(m);
    assert forall|i: int| 0 <= i < ta.len() implies #[trigger] ascii_upper(ta[i]) == ascii_upper(
        tb[i],
    ) by {
        assert(ascii_lower(sa[i]) == ascii_lower(sb[i]));
        lemma_same_fold_same_white_space(sa[i], sb[i]);
    }
    assert(ascii_upper_spec(ta) =~= ascii_upper_spec(tb));
}

// ---------------------------------------------------------------------------
// Numeric addresses
// ---------------------------------------------------------------------------

/// Whether `c` is an ASCII hexadecimal digit.
pub open spec fn is_hex_digit(c: char) -> bool {
    ('0' <= c && c <= '9') || ('a' <= c && c <= 'f') || ('A' <= c && c <= 'F')
}

/// The value of one hexadecimal digit.
pub open spec fn hex_digit_value(c: char) -> int {
    if '0' <= c && c <= '9' {
        c as int - '0' as int
    } else if 'a' <= c && c <= 'f' {
        c as int - 'a' as int + 10
    } else {
        c as int - 'A' as int + 10
    }
}

/// The number that a string of hexadecimal digits denotes, most significant
/// digit first.
pub open spec fn hex_value(digits: Seq<char>) -> int
    decreases digits.len(),
{
    if digits.len() == 0 {
        0
    } else {
        hex_value(digits.drop_last()) * 16 + hex_digit_value(digits.last())
    }
}

/// The hexadecimal digits of `s`, in order, with every other character left out.
pub open spec fn hex_digits_of(s: Seq<char>) -> Seq<char> {
    s.filter(|c: char| is_hex_digit(c))
}

/// What `parse_bluetooth_address` gives: the value of the hexadecimal digits
/// of the text when there are exactly twelve of them, none otherwise.
pub open spec fn parse_bluetooth_address_spec(address: Seq<char>) -> Option<u64> {
    let digits = hex_digits_of(address);
    if digits.len() == 12 {
        Some(hex_value(digits) as u64)
    } else {
        None
    }
}

/// `16` raised to `n`.
pub open spec fn pow16(n: nat) -> int
    decreases n,
{
    if n == 0 {
        1
    } else {
        16 * pow16((n - 1) as nat)
    }
}

proof fn lemma_hex_value_bound(digits: Seq<char>)
    requires
        forall|i: int| 0 <= i < digits.len() ==> is_hex_digit(#[trigger] digits[i]),
    ensures
        0 <= hex_value(digits) < pow16(digits.len()),
    decreases digits.len(),
{
    if digits.len() > 0 {
        let init = digits.drop_last();
        assert forall|i: int| 0 <= i < init.len() implies is_hex_digit(#[trigger] init[i]) by {
            assert(is_hex_digit(digits[i]));
        }
        lemma_hex_value_bound(init);
        assert(is_hex_digit(digits[digits.len() - 1]));
        let h = hex_value(init);
        let p = pow16(init.len());
        let d = hex_digit_value(digits.last());
        assert(0 <= d < 16);
        assert(0 <= h * 16 + d < 16 * p) by (nonlinear_arith)
            requires
                0 <= h < p,
                0 <= d < 16,
        ;
    }
}

proof fn lemma_pow16_12()
    ensures
        pow16(12) == 0x1_0000_0000_0000,
{
    reveal_with_fuel(pow16, 13);
}

/// Whether `c` is an ASCII hexadecimal digit.
pub fn char_is_hex_digit(c: char) -> (r: bool)
    ensures
        r == is_hex_digit(c),
{
    ('0' <= c && c <= '9') || ('a' <= c && c <= 'f') || ('A' <= c && c <= 'F')
}

fn hex_digit_to_u64(c: char) -> (r: u64)
    requires
        is_hex_digit(c),
    ensures
        r as int == hex_digit_value(c),
        r < 16,
{
    let v: u32 = c as u32;
    if '0' <= c && c <= '9' {
        (v - 48) as u64
    } else if 'a' <= c && c <= 'f' {
        (v - 87) as u64
    } else {
        (v - 55) as u64
    }
}

/// The 48-bit value of a textual device address: the hexadecimal digits of
/// the text, read in order, when there are exactly twelve of them; every
/// other character (separators included) is ignored.
pub fn parse_bluetooth_address(address: &str) -> (r: Option<u64>)
    ensures
        r == parse_bluetooth_address_spec(address@),
{
    let chars = chars_of(address);
    let ghost pred = |c: char| is_hex_digit(c);
    let mut digits: Vec<char> = Vec::new();
    let mut i: usize = 0;
    while i < chars.len()
        invariant
            chars@ == address@,
            i <= chars.len(),
            pred == (|c: char| is_hex_digit(c)),
            digits@ == address@.take(i as int).filter(pred),
        decreases chars.len() - i,
    {
        proof {
            address@.take(i as int).lemma_filter_push(address@[i as int], pred);
            assert(address@.take(i + 1) =~= address@.take(i as int).push(address@[i as int]));
        }
        if char_is_hex_digit(chars[i]) {
            digits.push(chars[i]);
        }
        i = i + 1;
    }
    assert(address@.take(chars.len() as int) =~= address@);
    assert(digits@ == hex_digits_of(address@));
    if digits.len() != 12 {
        return None;
    }
    proof {
        assert forall|j: int| 0 <= j < digits@.len() implies is_hex_digit(#[trigger] digits@[j]) by {
            address@.lemma_filter_pred(pred, j);
        }
        lemma_pow16_12();
    }
    let mut value: u64 = 0;
    let mut j: usize = 0;
    while j < 12
        invariant
            digits@.len() == 12,
            forall|k: int| 0 <= k < digits@.len() ==> is_hex_digit(#[trigger] digits@[k]),
            j <= 12,
            value as int == hex_value(digits@.take(j as int)),
            pow16(12) == 0x1_0000_0000_0000,
        decreases 12 - j,
    {
        let ghost next = digits@.take(j as int + 1);
        assert(next.drop_last() =~= digits@.take(j as int));
        assert forall|k: int| 0 <= k < next.len() implies is_hex_digit(#[trigger] next[k]) by {
            assert(is_hex_digit(digits@[k]));
        }
        proof {
            lemma_hex_value_bound(next);
            lemma_pow16_monotone(next.len(), 12);
        }
        let d = hex_digit_to_u64(digits[j]);
        value = value * 16 + d;
        j = j + 1;
    }
    assert(digits@.take(12) =~= digits@);
    Some(value)
}

proof fn lemma_pow16_monotone(a: nat, b: nat)
    requires
        a <= b,
    ensures
        pow16(a) <= pow16(b),
    decreases b,
{
    if a < b {
        lemma_pow16_monotone(a, (b - 1) as nat);
        lemma_pow16_positive((b - 1) as nat);
    }
}

proof fn lemma_pow16_positive(n: nat)
    ensures
        pow16(n) >= 1,
    decreases n,
{
    if n > 0 {
        lemma_pow16_positive((n - 1) as nat);
    }
}


proof fn lemma_same_fold_same_hex_digit(a: char, b: char)
    requires
        ascii_lower(a) == ascii_lower(b),
    ensures
        is_hex_digit(a) == is_hex_digit(b),
        is_hex_digit(a) ==> hex_digit_value(a) == hex_digit_value(b),
{
}

proof fn lemma_hex_digits_ignore_ascii_case(a: Seq<char>, b: Seq<char>)
    requires
        eq_ignore_ascii_case_spec(a, b),
    ensures
        hex_digits_of(a).len() == hex_digits_of(b).len(),
        hex_value(hex_digits_of(a)) == hex_value(hex_digits_of(b)),
    decreases a.len(),
{
    let pred = |c: char| is_hex_digit(c);
    if a.len() > 0 {
        let ia = a.drop_last();
        let ib = b.drop_last();
        assert forall|i: int| 0 <= i < ia.len() implies #[trigger] ascii_lower(ia[i]) == ascii_lower(
            ib[i],
        ) by {
            assert(ascii_lower(a[i]) == ascii_lower(b[i]));
        }
        lemma_hex_digits_ignore_ascii_case(ia, ib);
        assert(ascii_lower(a[a.len() - 1]) == ascii_lower(b[b.len() - 1]));
        lemma_same_fold_same_hex_digit(a.last(), b.last());
        ia.lemma_filter_push(a.last(), pred);
        ib.lemma_filter_push(b.last(), pred);
        assert(ia.push(a.last()) =~= a);
        assert(ib.push(b.last()) =~= b);
        let fa = ia.filter(pred);
        let fb = ib.filter(pred);
        if is_hex_digit(a.last()) {
            assert(fa.push(a.last()).drop_last() =~= fa);
            assert(fb.push(b.last()).drop_last() =~= fb);
        }
    } else {
        assert(hex_digits_of(a) =~= Seq::<char>::empty());
        assert(hex_digits_of(b) =~= Seq::<char>::empty());
    }
}

/// The value of an address does not depend on the case of its letters:
/// two texts that differ only in the ASCII case of their characters parse
/// to the same value, or both to none.
pub proof fn lemma_parse_ignores_ascii_case(a: Seq<char>, b: Seq<char>)
    requires
        eq_ignore_ascii_case_spec(a, b),
    ensures
        parse_bluetooth_address_spec(a) == parse_bluetooth_address_spec(b),
{
    lemma_hex_digits_ignore_ascii_case(a, b);
}

/// An address and its upper-case form parse to the same value.
pub proof fn lemma_parse_upper_case(s: Seq<char>)
    ensures
        parse_bluetooth_address_spec(s) == parse_bluetooth_address_spec(ascii_upper_spec(s)),
{
    let u = ascii_upper_spec(s);
    assert forall|i: int| 0 <= i < s.len() implies #[trigger] ascii_lower(s[i]) == ascii_lower(
        u[i],
    ) by {
    }
    lemma_parse_ignores_ascii_case(s, u);
}

/// The hexadecimal digits are exactly the sixteen digits `0` to `9` and
/// `a` to `f`, each also in upper case, and the digit at position `i` of
/// that list has the value `i`.
pub proof fn lemma_hex_digits_are_the_sixteen_digits(c: char)
    ensures
        forall|i: int|
            0 <= i < 16 ==> is_hex_digit(#[trigger] "0123456789abcdef"@[i]) && hex_digit_value(
                "0123456789abcdef"@[i],
            ) == i,
        forall|i: int|
            0 <= i < 16 ==> is_hex_digit(#[trigger] "0123456789ABCDEF"@[i]) && hex_digit_value(
                "0123456789ABCDEF"@[i],
            ) == i,
        is_hex_digit(c) <==> exists|i: int|
            0 <= i < 16 && (c == #[trigger] "0123456789abcdef"@[i] || c == "0123456789ABCDEF"@[i]),
{
    reveal_strlit("0123456789abcdef");
    reveal_strlit("0123456789ABCDEF");
    let lower = "0123456789abcdef"@;
    let upper = "0123456789ABCDEF"@;
    if is_hex_digit(c) {
        let i = hex_digit_value(c);
        assert(0 <= i < 16);
        assert(c == lower[i] || c == upper[i]);
    }
}

} // verus!
