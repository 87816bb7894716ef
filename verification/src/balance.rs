//! Token amounts and their textual form.
//!
//! An amount is held in the token's smallest unit. The operator writes
//! amounts as a decimal number of whole tokens ("10NEAR", "0.5near") or as an
//! integer count of the smallest unit ("10000yoctonear"); units are matched
//! case-insensitively and the fractional part may have at most 24 digits.

use vstd::prelude::*;

verus! {

use crate::YOCTO_PER_NEAR;

/// An amount of the ledger's token, in the smallest unit.
#[derive(Debug, Clone, Copy, PartialEq, Eq, Structural)]
pub struct NearBalance {
    pub yocto: u128,
}

impl NearBalance {
    pub fn from_yoctonear(yocto: u128) -> (r: NearBalance)
        ensures
            r.yocto == yocto,
    {
        NearBalance { yocto }
    }

    pub fn to_yoctonear(&self) -> (r: u128)
        ensures
            r == self.yocto,
    {
        self.yocto
    }

    /// Whether this amount does not exceed the other: the validation used for
    /// amounts bounded by a queried balance.
    pub fn not_exceeding(&self, bound: &NearBalance) -> (r: bool)
        ensures
            r == (self.yocto <= bound.yocto),
    {
        self.yocto <= bound.yocto
    }
}

/// Whether the byte is an ASCII decimal digit.
pub open spec fn spec_is_digit(b: u8) -> bool {
    48 <= b && b <= 57
}

/// Whether every byte of the text is a decimal digit.
pub open spec fn all_digits(s: Seq<u8>) -> bool {
    forall|i: int| 0 <= i < s.len() ==> spec_is_digit(#[trigger] s[i])
}

/// The number denoted by a digit string, most significant digit first.
pub open spec fn digits_value(s: Seq<u8>) -> int
    decreases s.len(),
{
    if s.len() == 0 {
        0
    } else {
        digits_value(s.drop_last()) * 10 + (s.last() - 48)
    }
}

/// Ten to the given power.
pub open spec fn pow10(n: nat) -> int
    decreases n,
{
    if n == 0 {
        1
    } else {
        10 * pow10((n - 1) as nat)
    }
}

/// The length of the longest prefix of the text made of decimal digits.
pub open spec fn digits_prefix_len(s: Seq<u8>) -> nat
    decreases s.len(),
{
    if s.len() == 0 || !spec_is_digit(s[0]) {
        0
    } else {
        1 + digits_prefix_len(s.drop_first())
    }
}

/// The byte with an ASCII upper-case letter folded to lower case.
pub open spec fn lower_byte(b: u8) -> u8 {
    if 65 <= b && b <= 90 {
        (b + 32) as u8
    } else {
        b
    }
}

/// Whether the text is the whole-token unit: "near" or "n", in any case.
pub open spec fn is_near_unit(u: Seq<u8>) -> bool {
    (u.len() == 1 && lower_byte(u[0]) == 110) || (u.len() == 4 && lower_byte(u[0]) == 110
        && lower_byte(u[1]) == 101 && lower_byte(u[2]) == 97 && lower_byte(u[3]) == 114)
}

/// Whether the text is the smallest-unit suffix: "yoctonear", in any case.
pub open spec fn is_yocto_unit(u: Seq<u8>) -> bool {
    u.len() == 9 && lower_byte(u[0]) == 121 && lower_byte(u[1]) == 111 && lower_byte(u[2]) == 99
        && lower_byte(u[3]) == 116 && lower_byte(u[4]) == 111 && lower_byte(u[5]) == 110
        && lower_byte(u[6]) == 101 && lower_byte(u[7]) == 97 && lower_byte(u[8]) == 114
}

/// The amount denoted by a balance literal, or `None` where the text is not
/// a balance literal or the amount does not fit the amount type. The literal
/// is digits, optionally a point and more digits (at most 24), then a unit;
/// the point form is only valid with the whole-token unit.
pub open spec fn spec_parse_balance(s: Seq<u8>) -> Option<u128> {
    let d1 = digits_prefix_len(s) as int;
    if d1 == 0 {
        None
    } else if d1 < s.len() && s[d1] == 46 {
        let d2 = digits_prefix_len(s.skip(d1 + 1)) as int;
        let unit = s.skip(d1 + 1 + d2);
        if d2 == 0 || d2 > 24 || !is_near_unit(unit) {
            None
        } else {
            let v = digits_value(s.take(d1)) * pow10(24) + digits_value(
                s.subrange(d1 + 1, d1 + 1 + d2),
            ) * pow10((24 - d2) as nat);
            if v <= u128::MAX {
                Some(v as u128)
            } else {
                None
            }
        }
    } else {
        let unit = s.skip(d1);
        if is_near_unit(unit) {
            let v = digits_value(s.take(d1)) * pow10(24);
            if v <= u128::MAX {
                Some(v as u128)
            } else {
                None
            }
        } else if is_yocto_unit(unit) {
            let v = digits_value(s.take(d1));
            if v <= u128::MAX {
                Some(v as u128)
            } else {
                None
            }
        } else {
            None
        }
    }
}

/// A digit string denotes a number between zero (inclusive) and ten to the
/// power of its length (exclusive).
pub proof fn lemma_digits_value_bounds(s: Seq<u8>)
    requires
        all_digits(s),
    ensures
        0 <= digits_value(s) < pow10(s.len()),
    decreases s.len(),
{
    if s.len() == 0 {
    } else {
        let dl = s.drop_last();
        assert(all_digits(dl)) by {
            assert(forall|i: int| 0 <= i < dl.len() ==> dl[i] == s[i] && spec_is_digit(#[trigger] s[i]));
        }
        lemma_digits_value_bounds(dl);
        assert(spec_is_digit(s.last()));
        assert(pow10(s.len()) == 10 * pow10(dl.len()));
    }
}

/// A digit string denotes at least as much as any of its prefixes.
pub proof fn lemma_digits_value_take(s: Seq<u8>, k: int)
    requires
        all_digits(s),
        0 <= k <= s.len(),
    ensures
        digits_value(s.take(k)) <= digits_value(s),
    decreases s.len(),
{
    if k == s.len() {
        assert(s.take(k) =~= s);
    } else {
        let dl = s.drop_last();
        assert(all_digits(dl)) by {
            assert(forall|i: int| 0 <= i < dl.len() ==> dl[i] == s[i] && spec_is_digit(#[trigger] s[i]));
        }
        assert(s.take(k) =~= dl.take(k));
        lemma_digits_value_take(dl, k);
        lemma_digits_value_bounds(dl);
        assert(spec_is_digit(s.last()));
        assert(digits_value(s) == digits_value(dl) * 10 + (s.last() - 48));
    }
}

/// The digit-prefix length is the position of the first non-digit byte.
pub proof fn lemma_digits_prefix_len_at(s: Seq<u8>, k: int)
    requires
        0 <= k <= s.len(),
        forall|i: int| 0 <= i < k ==> spec_is_digit(#[trigger] s[i]),
        k == s.len() || !spec_is_digit(s[k]),
    ensures
        digits_prefix_len(s) == k,
    decreases s.len(),
{
    if s.len() == 0 {
    } else if k == 0 {
    } else {
        let d = s.drop_first();
        assert(forall|i: int| 0 <= i < k - 1 ==> d[i] == s[i + 1] && spec_is_digit(#[trigger] s[i + 1]));
        lemma_digits_prefix_len_at(d, k - 1);
    }
}

/// Powers of ten do not decrease with the exponent.
pub proof fn lemma_pow10_monotonic(a: nat, b: nat)
    requires
        a <= b,
    ensures
        0 < pow10(a) <= pow10(b),
    decreases b,
{
    if b == 0 {
    } else if a == b {
        lemma_pow10_monotonic((a - 1) as nat, (b - 1) as nat);
    } else {
        lemma_pow10_monotonic(a, (b - 1) as nat);
    }
}

/// Ten to a sum of powers is the product of the powers.
pub proof fn lemma_pow10_add(a: nat, b: nat)
    ensures
        pow10(a + b) == pow10(a) * pow10(b),
    decreases a,
{
    if a == 0 {
    } else {
        lemma_pow10_add((a - 1) as nat, b);
        assert(pow10(a + b) == 10 * pow10((a + b - 1) as nat));
        assert(10 * (pow10((a - 1) as nat) * pow10(b)) == (10 * pow10((a - 1) as nat)) * pow10(b))
            by (nonlinear_arith);
    }
}

/// Ten to the twenty-fourth power is the number of smallest units in a token.
pub proof fn lemma_pow10_24()
    ensures
        pow10(24) == YOCTO_PER_NEAR,
{
    reveal_with_fuel(pow10, 25);
}

/// The end of the run of digits that starts at `start`.
fn scan_digits(bytes: &[u8], start: usize) -> (r: usize)
    requires
        start <= bytes@.len(),
    ensures
        start <= r <= bytes@.len(),
        r - start == digits_prefix_len(bytes@.skip(start as int)),
        forall|j: int| start <= j < r ==> spec_is_digit(#[trigger] bytes@[j]),
        r < bytes@.len() ==> !spec_is_digit(bytes@[r as int]),
{
    let n = bytes.len();
    let mut i = start;
    while i < n && 48 <= bytes[i] && bytes[i] <= 57
        invariant
            start <= i <= n,
            n == bytes@.len(),
            forall|j: int| start <= j < i ==> spec_is_digit(#[trigger] bytes@[j]),
        decreases n - i,
    {
        i = i + 1;
    }
    proof {
        let s = bytes@.skip(start as int);
        let k = i - start;
        assert(forall|j: int| 0 <= j < k ==> s[j] == bytes@[j + start] && spec_is_digit(
            #[trigger] bytes@[j + start],
        ));
        if i < n {
            assert(s[k as int] == bytes@[i as int]);
        }
        lemma_digits_prefix_len_at(s, k as int);
    }
    i
}

/// The number denoted by the digits between `start` and `end`, or `None`
/// where it does not fit the amount type.
fn digits_to_value(bytes: &[u8], start: usize, end: usize) -> (r: Option<u128>)
    requires
        start <= end <= bytes@.len(),
        all_digits(bytes@.subrange(start as int, end as int)),
    ensures
        ({
            let v = digits_value(bytes@.subrange(start as int, end as int));
            match r {
                Some(x) => x == v,
                None => v > u128::MAX,
            }
        }),
{
    let ghost whole = bytes@.subrange(start as int, end as int);
    let mut acc: u128 = 0;
    let mut i = start;
    while i < end
        invariant
            start <= i <= end <= bytes@.len(),
            all_digits(whole),
            whole == bytes@.subrange(start as int, end as int),
            acc == digits_value(bytes@.subrange(start as int, i as int)),
        decreases end - i,
    {
        let ghost prefix = bytes@.subrange(start as int, i as int);
        let ghost next = bytes@.subrange(start as int, i as int + 1);
        proof {
            assert(next.drop_last() =~= prefix);
            assert(next.last() == bytes@[i as int]);
            assert(whole[i - start] == bytes@[i as int]);
            assert(all_digits(prefix)) by {
                assert(forall|j: int| 0 <= j < prefix.len() ==> prefix[j] == whole[j]
                    && spec_is_digit(#[trigger] whole[j]));
            }
        }
        let d = bytes[i];
        let step = match acc.checked_mul(10) {
            Some(t) => t.checked_add((d - 48) as u128),
            None => None,
        };
        match step {
            Some(v) => {
                acc = v;
            },
            None => {
                proof {
                    assert(digits_value(next) > u128::MAX);
                    assert(all_digits(next)) by {
                        assert(forall|j: int| 0 <= j < next.len() ==> next[j] == whole[j]
                            && spec_is_digit(#[trigger] whole[j]));
                    }
                    assert(next =~= whole.take(i - start + 1));
                    lemma_digits_value_take(whole, i - start + 1);
                }
                return None;
            },
        }
        i = i + 1;
    }
    proof {
        assert(bytes@.subrange(start as int, end as int) =~= whole);
    }
    Some(acc)
}

/// Ten to the given power, as an amount.
fn pow10_u128(e: usize) -> (r: u128)
    requires
        e <= 24,
    ensures
        r == pow10(e as nat),
{
    let mut r: u128 = 1;
    let mut i: usize = 0;
    while i < e
        invariant
            0 <= i <= e <= 24,
            r == pow10(i as nat),
        decreases e - i,
    {
        proof {
            lemma_pow10_monotonic(i as nat + 1, 24);
            lemma_pow10_24();
        }
        r = r * 10;
        i = i + 1;
    }
    r
}

/// How the text from `start` on reads as a unit suffix.
enum UnitKind {
    Near,
    Yocto,
    Invalid,
}

/// Folds an ASCII upper-case letter to lower case.
fn lower_ascii(b: u8) -> (r: u8)
    ensures
        r == lower_byte(b),
{
    if 65 <= b && b <= 90 {
        b + 32
    } else {
        b
    }
}

/// Classifies the unit suffix that starts at `start`.
fn unit_kind(bytes: &[u8], start: usize) -> (r: UnitKind)
    requires
        start <= bytes@.len(),
    ensures
        ({
            let u = bytes@.skip(start as int);
            match r {
                UnitKind::Near => is_near_unit(u),
                UnitKind::Yocto => is_yocto_unit(u),
                UnitKind::Invalid => !is_near_unit(u) && !is_yocto_unit(u),
            }
        }),
{
    let rem = bytes.len() - start;
    if rem == 1 {
        if lower_ascii(bytes[start]) == 110 {
            UnitKind::Near
        } else {
            UnitKind::Invalid
        }
    } else if rem == 4 {
        if lower_ascii(bytes[start]) == 110 && lower_ascii(bytes[start + 1]) == 101 && lower_ascii(
            bytes[start + 2],
        ) == 97 && lower_ascii(bytes[start + 3]) == 114 {
            UnitKind::Near
        } else {
            UnitKind::Invalid
        }
    } else if rem == 9 {
        if lower_ascii(bytes[start]) == 121 && lower_ascii(bytes[start + 1]) == 111 && lower_ascii(
            bytes[start + 2],
        ) == 99 && lower_ascii(bytes[start + 3]) == 116 && lower_ascii(bytes[start + 4]) == 111
            && lower_ascii(bytes[start + 5]) == 110 && lower_ascii(bytes[start + 6]) == 101
            && lower_ascii(bytes[start + 7]) == 97 && lower_ascii(bytes[start + 8]) == 114 {
            UnitKind::Yocto
        } else {
            UnitKind::Invalid
        }
    } else {
        UnitKind::Invalid
    }
}

impl NearBalance {
    /// Reads a balance literal: a decimal count of whole tokens ("10NEAR",
    /// "0.5near") or an integer count of the smallest unit ("10000yoctonear").
    pub fn from_text(s: &str) -> (r: Option<NearBalance>)
        ensures
            ({
                let p = spec_parse_balance(vstd::utf8::encode_utf8(s@));
                match r {
                    Some(b) => p == Some(b.yocto),
                    None => p is None,
                }
            }),
    {
        let bytes: &[u8] = s.as_bytes();
        let d1_end = scan_digits(bytes, 0);
        proof {
            assert(bytes@.skip(0) =~= bytes@);
        }
        if d1_end == 0 {
            return None;
        }
        if d1_end < bytes.len() && bytes[d1_end] == 46 {
            // A fractional literal: digits, a point, more digits, then the
            // whole-token unit.
            let d2_end = scan_digits(bytes, d1_end + 1);
            let d2 = d2_end - (d1_end + 1);
            proof {
                assert(bytes@.skip(d1_end as int)[0] == bytes@[d1_end as int]);
            }
            if d2 == 0 || d2 > 24 {
                return None;
            }
            match unit_kind(bytes, d2_end) {
                UnitKind::Near => {
                    proof {
                        assert(bytes@.subrange(0, d1_end as int) =~= bytes@.take(d1_end as int));
                        assert(all_digits(bytes@.take(d1_end as int))) by {
                            let s0 = bytes@.skip(0);
                            assert(forall|j: int| 0 <= j < d1_end ==> bytes@.take(d1_end as int)[j]
                                == bytes@[j] && spec_is_digit(#[trigger] bytes@[j]));
                        }
                    }
                    let int_val = match digits_to_value(bytes, 0, d1_end) {
                        Some(v) => v,
                        None => {
                            proof {
                                near_value_over_max(bytes@, d1_end as int, d2 as int);
                            }
                            return None;
                        },
                    };
                    let base = match int_val.checked_mul(YOCTO_PER_NEAR) {
                        Some(v) => v,
                        None => {
                            proof {
                                lemma_pow10_24();
                                near_value_over_max(bytes@, d1_end as int, d2 as int);
                            }
                            return None;
                        },
                    };
                    proof {
                        assert(all_digits(bytes@.subrange(d1_end + 1, d1_end + 1 + d2))) by {
                            let f = bytes@.subrange(d1_end + 1, d1_end + 1 + d2);
                            let sk = bytes@.skip(d1_end + 1);
                            assert(forall|j: int| 0 <= j < d2 ==> f[j] == sk[j] && spec_is_digit(
                                #[trigger] sk[j],
                            ));
                        }
                    }
                    let frac_val = match digits_to_value(bytes, d1_end + 1, d2_end) {
                        Some(v) => v,
                        None => {
                            proof {
                                let f = bytes@.subrange(d1_end + 1, d1_end + 1 + d2);
                                lemma_digits_value_bounds(f);
                                lemma_pow10_monotonic(f.len(), 24);
                                lemma_pow10_24();
                            }
                            return None;
                        },
                    };
                    let scale = pow10_u128(24 - d2);
                    proof {
                        let f = bytes@.subrange(d1_end + 1, d1_end + 1 + d2);
                        lemma_digits_value_bounds(f);
                        lemma_pow10_add(d2 as nat, (24 - d2) as nat);
                        lemma_pow10_monotonic((24 - d2) as nat, 24);
                        lemma_pow10_24();
                        assert(frac_val * scale <= (pow10(d2 as nat) - 1) * pow10(
                            (24 - d2) as nat,
                        )) by (nonlinear_arith)
                            requires
                                frac_val <= pow10(d2 as nat) - 1,
                                scale == pow10((24 - d2) as nat),
                                scale >= 0,
                        ;
                        assert((pow10(d2 as nat) - 1) * pow10((24 - d2) as nat) == pow10(d2 as nat)
                            * pow10((24 - d2) as nat) - pow10((24 - d2) as nat))
                            by (nonlinear_arith);
                        assert(frac_val * scale >= 0) by (nonlinear_arith)
                            requires
                                frac_val >= 0,
                                scale >= 0,
                        ;
                    }
                    let frac_yocto = frac_val * scale;
                    match base.checked_add(frac_yocto) {
                        Some(total) => Some(NearBalance { yocto: total }),
                        None => None,
                    }
                },
                _ => None,
            }
        } else {
            proof {
                assert(bytes@.subrange(0, d1_end as int) =~= bytes@.take(d1_end as int));
                assert(all_digits(bytes@.take(d1_end as int))) by {
                    assert(forall|j: int| 0 <= j < d1_end ==> bytes@.take(d1_end as int)[j]
                        == bytes@[j] && spec_is_digit(#[trigger] bytes@[j]));
                }
                if d1_end < bytes@.len() {
                    assert(bytes@.skip(d1_end as int)[0] == bytes@[d1_end as int]);
                }
            }
            match unit_kind(bytes, d1_end) {
                UnitKind::Near => {
                    let int_val = match digits_to_value(bytes, 0, d1_end) {
                        Some(v) => v,
                        None => {
                            proof {
                                lemma_pow10_24();
                                let iv = digits_value(bytes@.take(d1_end as int));
                                assert(iv * pow10(24) >= iv) by (nonlinear_arith)
                                    requires
                                        iv >= 0 || iv > u128::MAX,
                                        pow10(24) >= 1,
                                ;
                            }
                            return None;
                        },
                    };
                    match int_val.checked_mul(YOCTO_PER_NEAR) {
                        Some(v) => {
                            proof {
                                lemma_pow10_24();
                            }
                            Some(NearBalance { yocto: v })
                        },
                        None => {
                            proof {
                                lemma_pow10_24();
                            }
                            None
                        },
                    }
                },
                UnitKind::Yocto => {
                    match digits_to_value(bytes, 0, d1_end) {
                        Some(v) => Some(NearBalance { yocto: v }),
                        None => None,
                    }
                },
                UnitKind::Invalid => None,
            }
        }
    }
}

/// The character of one decimal digit.
pub open spec fn spec_digit_char(d: int) -> char {
    if d == 0 {
        '0'
    } else if d == 1 {
        '1'
    } else if d == 2 {
        '2'
    } else if d == 3 {
        '3'
    } else if d == 4 {
        '4'
    } else if d == 5 {
        '5'
    } else if d == 6 {
        '6'
    } else if d == 7 {
        '7'
    } else if d == 8 {
        '8'
    } else {
        '9'
    }
}

/// The decimal form of a number, most significant digit first, no leading
/// zeros (a lone zero for zero).
pub open spec fn spec_dec_digits(n: nat) -> Seq<char>
    decreases n,
{
    if n < 10 {
        seq![spec_digit_char(n as int)]
    } else {
        spec_dec_digits(n / 10).push(spec_digit_char((n % 10) as int))
    }
}

/// The characters of the collected digits read back to front.
pub open spec fn spec_rev_digit_chars(digs: Seq<u8>) -> Seq<char> {
    Seq::new(digs.len(), |i: int| spec_digit_char(digs[digs.len() - 1 - i] as int))
}

/// Appends one decimal digit's character.
fn push_digit_char(s: &mut String, d: u8)
    requires
        d < 10,
    ensures
        final(s)@ == old(s)@.push(spec_digit_char(d as int)),
{
    let lit: &str = if d == 0 {
        "0"
    } else if d == 1 {
        "1"
    } else if d == 2 {
        "2"
    } else if d == 3 {
        "3"
    } else if d == 4 {
        "4"
    } else if d == 5 {
        "5"
    } else if d == 6 {
        "6"
    } else if d == 7 {
        "7"
    } else if d == 8 {
        "8"
    } else {
        "9"
    };
    proof {
        reveal_strlit("0");
        reveal_strlit("1");
        reveal_strlit("2");
        reveal_strlit("3");
        reveal_strlit("4");
        reveal_strlit("5");
        reveal_strlit("6");
        reveal_strlit("7");
        reveal_strlit("8");
        reveal_strlit("9");
    }
    s.append(lit);
    proof {
        assert(final(s)@ =~= old(s)@.push(spec_digit_char(d as int)));
    }
}

/// Writes a number in decimal, most significant digit first.
pub fn format_u128(n: u128) -> (r: String)
    ensures
        r@ == spec_dec_digits(n as nat),
{
    let mut digs: Vec<u8> = Vec::new();
    let mut m = n;
    loop
        invariant_except_break
            m > 0 ==> spec_dec_digits(n as nat) =~= spec_dec_digits(m as nat)
                + spec_rev_digit_chars(digs@),
            m == 0 ==> digs@.len() == 0 && n == 0,
            forall|j: int| 0 <= j < digs@.len() ==> digs@[j] < 10,
        ensures
            spec_dec_digits(n as nat) =~= spec_rev_digit_chars(digs@),
            forall|j: int| 0 <= j < digs@.len() ==> digs@[j] < 10,
            digs@.len() > 0,
        decreases m,
    {
        let ghost digs_before = digs@;
        let ghost m_before = m as nat;
        let d = (m % 10) as u8;
        digs.push(d);
        m = m / 10;
        proof {
            assert(spec_rev_digit_chars(digs_before.push(d)) =~= seq![
                spec_digit_char(d as int),
            ] + spec_rev_digit_chars(digs_before));
            if m_before < 10 {
                assert(spec_dec_digits(m_before) =~= seq![spec_digit_char(d as int)]);
            } else {
                assert(spec_dec_digits(m_before) == spec_dec_digits(m_before / 10).push(
                    spec_digit_char((m_before % 10) as int),
                ));
                assert(spec_dec_digits(m_before) =~= spec_dec_digits(m_before / 10) + seq![
                    spec_digit_char(d as int),
                ]);
            }
            if m_before == 0 {
                assert(spec_dec_digits(n as nat) =~= spec_rev_digit_chars(digs@));
            } else if m == 0 {
                assert(spec_dec_digits(n as nat) =~= spec_rev_digit_chars(digs@));
            } else {
                assert(spec_dec_digits(n as nat) =~= spec_dec_digits(m as nat)
                    + spec_rev_digit_chars(digs@));
            }
        }
        if m == 0 {
            break;
        }
    }
    let mut out = String::new();
    let mut i = digs.len();
    while i > 0
        invariant
            0 <= i <= digs@.len(),
            out@ =~= spec_rev_digit_chars(digs@).take(digs@.len() - i),
            forall|j: int| 0 <= j < digs@.len() ==> digs@[j] < 10,
        decreases i,
    {
        i = i - 1;
        push_digit_char(&mut out, digs[i]);
        proof {
            assert(spec_rev_digit_chars(digs@)[digs@.len() - 1 - i] == spec_digit_char(
                digs@[i as int] as int,
            ));
            assert(out@ =~= spec_rev_digit_chars(digs@).take(digs@.len() - i));
        }
    }
    proof {
        assert(spec_rev_digit_chars(digs@).take(digs@.len() as int) =~= spec_rev_digit_chars(
            digs@,
        ));
    }
    out
}

impl NearBalance {
    /// Writes the amount as a literal in the smallest unit, which
    /// `from_text` reads back.
    pub fn to_yocto_literal(&self) -> (r: String)
        ensures
            r@ == spec_dec_digits(self.yocto as nat) + "yoctonear"@,
    {
        let mut out = format_u128(self.yocto);
        out.append("yoctonear");
        out
    }
}

/// Where the whole part of a fractional literal is itself over the amount
/// type's maximum, the literal's value is too.
proof fn near_value_over_max(s: Seq<u8>, d1: int, d2: int)
    requires
        0 < d1 <= s.len(),
        0 < d2 <= 24,
        all_digits(s.take(d1)),
        d1 + 1 + d2 <= s.len(),
        all_digits(s.subrange(d1 + 1, d1 + 1 + d2)),
        digits_value(s.take(d1)) * pow10(24) > u128::MAX || digits_value(s.take(d1))
            > u128::MAX,
    ensures
        digits_value(s.take(d1)) * pow10(24) + digits_value(s.subrange(d1 + 1, d1 + 1 + d2))
            * pow10((24 - d2) as nat) > u128::MAX,
{
    let iv = digits_value(s.take(d1));
    let fv = digits_value(s.subrange(d1 + 1, d1 + 1 + d2));
    lemma_digits_value_bounds(s.take(d1));
    lemma_digits_value_bounds(s.subrange(d1 + 1, d1 + 1 + d2));
    lemma_pow10_monotonic(0, (24 - d2) as nat);
    lemma_pow10_monotonic(0, 24);
    lemma_pow10_24();
    if iv > u128::MAX {
        assert(iv * pow10(24) >= iv) by (nonlinear_arith)
            requires
                iv >= 0,
                pow10(24) >= 1,
        ;
    }
    assert(fv * pow10((24 - d2) as nat) >= 0) by (nonlinear_arith)
        requires
            fv >= 0,
            pow10((24 - d2) as nat) >= 1,
    ;
}

} // verus!
