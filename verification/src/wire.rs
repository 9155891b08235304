//! Rendering of submissions into StatsD wire-protocol lines.
//!
//! One submission renders as `name:value|type` followed, when there are tags,
//! by `|#k1:v1,k2:v2` with no trailing comma. Counter values are signed
//! integers, gauge and histogram values use plain decimal notation (integral
//! values render without a decimal point), and timer values are whole
//! milliseconds.

use vstd::arithmetic::div_mod::{
    lemma_add_mod_noop, lemma_mod_division_less_than_divisor, lemma_mod_sub_multiples_vanish,
    lemma_mul_mod_noop_left, lemma_small_mod,
};
use vstd::prelude::*;

use crate::types::Label;

verus! {

/// The character for one decimal digit. Values of ten or more do not occur
/// in well-formed digit sequences and are mapped to '9' to keep the function
/// total.
pub open spec fn digit_char(d: nat) -> char {
    if d == 0 {
        '0'
    } else if d == 1 {
        '1'
    } else if d == 2 {
        '2'
    } else if d == 3 {
        '3'
    } else if d == 4 {
        '4'
    } else if d == 5 {
        '5'
    } else if d == 6 {
        '6'
    } else if d == 7 {
        '7'
    } else if d == 8 {
        '8'
    } else {
        '9'
    }
}

/// The decimal digits of `n`, most significant first, with no leading zeros
/// (zero itself renders as a single digit).
pub open spec fn dec_digits(n: nat) -> Seq<char>
    decreases n,
{
    if n < 10 {
        seq![digit_char(n)]
    } else {
        dec_digits(n / 10).push(digit_char(n % 10))
    }
}

/// One decimal digit as a string slice.
fn digit_str(d: u64) -> (r: &'static str)
    ensures
        r@ == seq![digit_char(d as nat)],
{
    proof {
        reveal_strlit("0");
        reveal_strlit("1");
        reveal_strlit("2");
        reveal_strlit("3");
        reveal_strlit("4");
        reveal_strlit("5");
        reveal_strlit("6");
        reveal_strlit("7");
        reveal_strlit("8");
        reveal_strlit("9");
        assert("0"@ =~= seq!['0']);
        assert("1"@ =~= seq!['1']);
        assert("2"@ =~= seq!['2']);
        assert("3"@ =~= seq!['3']);
        assert("4"@ =~= seq!['4']);
        assert("5"@ =~= seq!['5']);
        assert("6"@ =~= seq!['6']);
        assert("7"@ =~= seq!['7']);
        assert("8"@ =~= seq!['8']);
        assert("9"@ =~= seq!['9']);
    }
    match d {
        0 => "0",
        1 => "1",
        2 => "2",
        3 => "3",
        4 => "4",
        5 => "5",
        6 => "6",
        7 => "7",
        8 => "8",
        _ => "9",
    }
}

/// Appends the decimal rendering of `n`.
fn push_u64(n: u64, out: &mut String)
    ensures
        final(out)@ == old(out)@ + dec_digits(n as nat),
    decreases n,
{
    if n >= 10 {
        push_u64(n / 10, out);
        out.append(digit_str(n % 10));
        proof {
            assert((n / 10) as nat == n as nat / 10);
            assert((n % 10) as nat == n as nat % 10);
            assert(old(out)@ + dec_digits(n as nat / 10) + seq![digit_char(n as nat % 10)] =~= old(
                out,
            )@ + dec_digits(n as nat));
        }
    } else {
        out.append(digit_str(n));
        proof {
            assert(old(out)@ + seq![digit_char(n as nat)] =~= old(out)@ + dec_digits(n as nat));
        }
    }
}

/// The rendering of a counter delta. The protocol's counter field is a
/// signed 64-bit integer, so a delta above `i64::MAX` narrows to its
/// two's-complement counterpart and renders with a sign.
pub open spec fn counter_chars(v: u64) -> Seq<char> {
    if v <= i64::MAX {
        dec_digits(v as nat)
    } else {
        "-"@ + dec_digits((0x1_0000_0000_0000_0000 - v) as nat)
    }
}

/// Appends the rendering of a counter delta.
fn push_counter(v: u64, out: &mut String)
    ensures
        final(out)@ == old(out)@ + counter_chars(v),
{
    if v <= 0x7fff_ffff_ffff_ffff {
        push_u64(v, out);
    } else {
        out.append("-");
        let mag = (u64::MAX - v) + 1;
        push_u64(mag, out);
        proof {
            assert(old(out)@ + "-"@ + dec_digits(mag as nat) =~= old(out)@ + ("-"@ + dec_digits(
                (0x1_0000_0000_0000_0000 - v) as nat,
            )));
        }
    }
}

/// Whether every entry of a digit sequence is a decimal digit.
pub open spec fn digits_ok(s: Seq<u8>) -> bool {
    forall|i: int| 0 <= i < s.len() ==> s[i] < 10
}

/// Whether a digit sequence is a well-formed integer part: nonempty, all
/// decimal digits, and no leading zero (zero itself is the single digit 0).
pub open spec fn int_digits_ok(s: Seq<u8>) -> bool {
    &&& digits_ok(s)
    &&& s.len() > 0
    &&& (s.len() > 1 ==> s[0] != 0)
}

/// Whether a fractional digit sequence is well formed: all decimal digits
/// and no trailing zero (so that a value has exactly one rendering).
pub open spec fn frac_ok(frac: Seq<u8>) -> bool {
    &&& digits_ok(frac)
    &&& (frac.len() > 0 ==> frac.last() != 0)
}

/// The number a digit sequence denotes, most significant digit first.
pub open spec fn digits_value(s: Seq<u8>) -> nat
    decreases s.len(),
{
    if s.len() == 0 {
        0
    } else {
        digits_value(s.drop_last()) * 10 + s.last() as nat
    }
}

/// The decimal digits of `n`, most significant first, with no leading zeros
/// (zero itself is the single digit 0).
pub open spec fn spec_digits_of(n: nat) -> Seq<u8>
    decreases n,
{
    if n < 10 {
        seq![n as u8]
    } else {
        spec_digits_of(n / 10).push((n % 10) as u8)
    }
}

/// The digit rendering of a number is a well-formed integer part and
/// denotes the number itself.
proof fn lemma_digits_of_value(n: nat)
    ensures
        int_digits_ok(spec_digits_of(n)),
        digits_value(spec_digits_of(n)) == n,
        n > 0 ==> spec_digits_of(n)[0] != 0,
    decreases n,
{
    reveal_with_fuel(digits_value, 2);
    if n < 10 {
        assert(seq![n as u8].drop_last() =~= Seq::<u8>::empty());
    } else {
        lemma_digits_of_value(n / 10);
        let s = spec_digits_of(n / 10);
        assert(s.push((n % 10) as u8).drop_last() =~= s);
        assert(digits_value(s.push((n % 10) as u8)) == digits_value(s) * 10 + n % 10);
    }
}

/// Under the no-leading-zero rule, only the single digit 0 denotes zero.
proof fn lemma_int_digits_value_zero(s: Seq<u8>)
    requires
        int_digits_ok(s),
    ensures
        digits_value(s) == 0 <==> s.len() == 1 && s[0] == 0,
    decreases s.len(),
{
    reveal_with_fuel(digits_value, 2);
    if s.len() == 1 {
        assert(s.drop_last() =~= Seq::<u8>::empty());
    } else {
        let p = s.drop_last();
        assert(int_digits_ok(p));
        lemma_int_digits_value_zero(p);
        assert(digits_value(p) > 0);
    }
}

/// Whether sign, integer digits and fractional digits form a well-formed
/// decimal value. A negative zero is excluded.
pub open spec fn decimal_ok(negative: bool, int_digits: Seq<u8>, frac: Seq<u8>) -> bool {
    &&& int_digits_ok(int_digits)
    &&& frac_ok(frac)
    &&& (negative ==> digits_value(int_digits) > 0 || frac.len() > 0)
}

/// A decimal numeric value: a sign, the digits of the integer part and a
/// sequence of fractional digits. `100` is (false, [1, 0, 0], []);
/// `-50.25` is (true, [5, 0], [2, 5]). The digit form covers every value a
/// double-precision float renders as in plain decimal notation.
pub struct Decimal {
    pub negative: bool,
    pub int_digits: Vec<u8>,
    pub frac: Vec<u8>,
}

/// Appends the decimal digits of `n` as digit bytes.
fn push_u64_digit_bytes(n: u64, out: &mut Vec<u8>)
    ensures
        final(out)@ == old(out)@ + spec_digits_of(n as nat),
    decreases n,
{
    if n >= 10 {
        push_u64_digit_bytes(n / 10, out);
        out.push((n % 10) as u8);
        proof {
            assert(old(out)@ + spec_digits_of((n / 10) as nat) + seq![(n % 10) as u8] =~= old(
                out,
            )@ + spec_digits_of(n as nat));
        }
    } else {
        out.push(n as u8);
        proof {
            assert(old(out)@ + seq![n as u8] =~= old(out)@ + spec_digits_of(n as nat));
        }
    }
}

impl Decimal {
    /// Whether the value is well formed.
    pub open spec fn wf(self) -> bool {
        decimal_ok(self.negative, self.int_digits@, self.frac@)
    }

    /// Builds a decimal value whose integer part fits a machine word;
    /// rejects a fractional digit above nine, a trailing fractional zero,
    /// and a negative zero.
    pub fn new(negative: bool, int_part: u64, frac: Vec<u8>) -> (r: Option<Decimal>)
        ensures
            r is Some <==> decimal_ok(negative, spec_digits_of(int_part as nat), frac@),
            r matches Some(d) ==> d.negative == negative && d.int_digits@ == spec_digits_of(
                int_part as nat,
            ) && d.frac@ == frac@,
    {
        proof {
            lemma_digits_of_value(int_part as nat);
        }
        let mut int_digits: Vec<u8> = Vec::new();
        push_u64_digit_bytes(int_part, &mut int_digits);
        proof {
            assert(Seq::<u8>::empty() + spec_digits_of(int_part as nat) =~= spec_digits_of(
                int_part as nat,
            ));
        }
        Decimal::from_digits(negative, int_digits, frac)
    }

    /// Builds a decimal value from raw digit sequences; rejects a digit
    /// above nine, an empty integer part, a leading integer zero, a
    /// trailing fractional zero, and a negative zero.
    pub fn from_digits(negative: bool, int_digits: Vec<u8>, frac: Vec<u8>) -> (r: Option<Decimal>)
        ensures
            r is Some <==> decimal_ok(negative, int_digits@, frac@),
            r matches Some(d) ==> d.negative == negative && d.int_digits@ == int_digits@
                && d.frac@ == frac@,
    {
        let ni = int_digits.len();
        if ni == 0 {
            return None;
        }
        let mut i: usize = 0;
        while i < ni
            invariant
                i <= ni,
                ni == int_digits@.len(),
                forall|j: int| 0 <= j < i ==> int_digits@[j] < 10,
            decreases ni - i,
        {
            if int_digits[i] >= 10 {
                return None;
            }
            i = i + 1;
        }
        if ni > 1 && int_digits[0] == 0 {
            return None;
        }
        let nf = frac.len();
        let mut k: usize = 0;
        while k < nf
            invariant
                k <= nf,
                nf == frac@.len(),
                forall|j: int| 0 <= j < k ==> frac@[j] < 10,
            decreases nf - k,
        {
            if frac[k] >= 10 {
                return None;
            }
            k = k + 1;
        }
        if nf > 0 && frac[nf - 1] == 0 {
            return None;
        }
        proof {
            lemma_int_digits_value_zero(int_digits@);
        }
        if negative && nf == 0 && ni == 1 && int_digits[0] == 0 {
            return None;
        }
        Some(Decimal { negative, int_digits, frac })
    }

    /// Builds a whole-number decimal value.
    pub fn from_int(negative: bool, int_part: u64) -> (r: Option<Decimal>)
        ensures
            r is Some <==> (negative ==> int_part > 0),
            r matches Some(d) ==> d.negative == negative && d.int_digits@ == spec_digits_of(
                int_part as nat,
            ) && d.frac@.len() == 0,
    {
        proof {
            lemma_digits_of_value(int_part as nat);
        }
        Decimal::new(negative, int_part, Vec::new())
    }

    /// The value, read as seconds, as the protocol's unsigned 64-bit count
    /// of whole milliseconds: the floor of the value times a thousand,
    /// reduced to 64 bits (a millisecond count past `u64::MAX` wraps, the
    /// field being no wider). A negative value, which the unsigned field
    /// cannot carry, narrows to zero. Never an error.
    pub fn timer_millis(&self) -> (r: u64)
        ensures
            r as nat == spec_timer_millis(*self),
    {
        if self.negative {
            return 0;
        }
        let ni = self.int_digits.len();
        let mut acc: u64 = 0;
        let mut i: usize = 0;
        proof {
            lemma_small_mod(0nat, 0x1_0000_0000_0000_0000nat);
            assert(self.int_digits@.take(0) =~= Seq::<u8>::empty());
        }
        while i < ni
            invariant
                i <= ni,
                ni == self.int_digits@.len(),
                acc as nat == digits_value(self.int_digits@.take(i as int)) % (
                0x1_0000_0000_0000_0000nat),
            decreases ni - i,
        {
            let d: u64 = self.int_digits[i] as u64;
            let next = acc.wrapping_mul(10).wrapping_add(d);
            proof {
                let range = 0x1_0000_0000_0000_0000int;
                let v = digits_value(self.int_digits@.take(i as int)) as int;
                let m = acc.wrapping_mul(10);
                assert(acc as int == v % range);
                assert(m as int == (acc as int * 10) % range);
                lemma_mod_division_less_than_divisor(v, range);
                assert(acc as int * 10 == (v % range) * 10);
                lemma_mul_mod_noop_left(v, 10, range);
                assert(m as int == (v * 10) % range);
                lemma_add_mod_noop(v * 10, d as int, range);
                lemma_small_mod(d as nat, range as nat);
                lemma_mod_division_less_than_divisor(v * 10, range);
                if m as int + d as int <= u64::MAX as int {
                    lemma_small_mod((m as int + d as int) as nat, range as nat);
                } else {
                    lemma_mod_sub_multiples_vanish(m as int + d as int, range);
                    lemma_small_mod((m as int + d as int - range) as nat, range as nat);
                }
                assert(next as int == (v * 10 + d as int) % range);
                assert(self.int_digits@.take(i as int + 1).drop_last() =~= self.int_digits@.take(
                    i as int,
                ));
                assert(digits_value(self.int_digits@.take(i as int + 1)) == v * 10 + d as int);
            }
            acc = next;
            i = i + 1;
        }
        proof {
            assert(self.int_digits@.take(ni as int) =~= self.int_digits@);
        }
        let f0: u64 = if self.frac.len() > 0 {
            self.frac[0] as u64
        } else {
            0
        };
        let f1: u64 = if self.frac.len() > 1 {
            self.frac[1] as u64
        } else {
            0
        };
        let f2: u64 = if self.frac.len() > 2 {
            self.frac[2] as u64
        } else {
            0
        };
        let fm: u64 = f0 * 100 + f1 * 10 + f2;
        let scaled = acc.wrapping_mul(1000);
        let r = scaled.wrapping_add(fm);
        proof {
            let range = 0x1_0000_0000_0000_0000int;
            let v = digits_value(self.int_digits@) as int;
            let p = v * 1000;
            assert(fm as int == spec_frac_millis(self.frac@));
            assert(fm < range) by {
                assert(f0 <= 255 && f1 <= 255 && f2 <= 255);
            }
            assert(acc as int == v % range);
            assert(scaled as int == (acc as int * 1000) % range);
            lemma_mod_division_less_than_divisor(v, range);
            assert(acc as int * 1000 == (v % range) * 1000);
            lemma_mul_mod_noop_left(v, 1000, range);
            assert(scaled as int == p % range);
            lemma_add_mod_noop(p, fm as int, range);
            lemma_small_mod(fm as nat, range as nat);
            lemma_mod_division_less_than_divisor(p, range);
            if scaled as int + fm as int <= u64::MAX as int {
                lemma_small_mod((scaled as int + fm as int) as nat, range as nat);
                assert(r as int == (p + fm as int) % range);
            } else {
                lemma_mod_sub_multiples_vanish(scaled as int + fm as int, range);
                lemma_small_mod((scaled as int + fm as int - range) as nat, range as nat);
                assert(r as int == (p + fm as int) % range);
            }
        }
        r
    }
}

/// The fractional digit at position `i`, or zero past the end.
pub open spec fn frac_digit(frac: Seq<u8>, i: int) -> nat {
    if 0 <= i < frac.len() {
        frac[i] as nat
    } else {
        0
    }
}

/// The fractional part as whole milliseconds: its first three digits, read
/// as a zero-padded three-digit number (the floor of the fraction times a
/// thousand).
pub open spec fn spec_frac_millis(frac: Seq<u8>) -> nat {
    frac_digit(frac, 0) * 100 + frac_digit(frac, 1) * 10 + frac_digit(frac, 2)
}

/// The value, read as seconds, as the protocol's unsigned 64-bit timer
/// field: the floor of the value times a thousand, reduced mod 2^64; zero
/// for a negative value, which the unsigned field cannot carry. Total: the
/// conversion is a documented narrowing, never an error.
pub open spec fn spec_timer_millis(d: Decimal) -> nat {
    if d.negative {
        0
    } else {
        (digits_value(d.int_digits@) * 1000 + spec_frac_millis(d.frac@))
            % 0x1_0000_0000_0000_0000
    }
}

/// A digit sequence as characters.
pub open spec fn digits_chars(s: Seq<u8>) -> Seq<char> {
    Seq::new(s.len(), |i: int| digit_char(s[i] as nat))
}

/// The rendering of a decimal value: an optional sign, the integer digits,
/// and the fractional digits after a point only when there are any.
pub open spec fn decimal_chars(d: Decimal) -> Seq<char> {
    (if d.negative {
        "-"@
    } else {
        Seq::<char>::empty()
    }) + digits_chars(d.int_digits@) + (if d.frac@.len() > 0 {
        "."@ + digits_chars(d.frac@)
    } else {
        Seq::<char>::empty()
    })
}

/// Appends a digit sequence as characters.
fn push_digits(digits: &Vec<u8>, out: &mut String)
    ensures
        final(out)@ == old(out)@ + digits_chars(digits@),
{
    let n = digits.len();
    let mut i: usize = 0;
    proof {
        assert(out@ =~= old(out)@ + digits_chars(digits@.take(0)));
    }
    while i < n
        invariant
            i <= n,
            n == digits@.len(),
            out@ == old(out)@ + digits_chars(digits@.take(i as int)),
        decreases n - i,
    {
        out.append(digit_str(digits[i] as u64));
        proof {
            assert(digits_chars(digits@.take(i as int + 1)) =~= digits_chars(
                digits@.take(i as int),
            ) + seq![digit_char(digits@[i as int] as nat)]);
            assert(out@ =~= old(out)@ + digits_chars(digits@.take(i as int + 1)));
        }
        i = i + 1;
    }
    proof {
        assert(digits@.take(n as int) =~= digits@);
    }
}

/// Appends the rendering of a decimal value.
fn push_decimal(d: &Decimal, out: &mut String)
    ensures
        final(out)@ == old(out)@ + decimal_chars(*d),
{
    if d.negative {
        out.append("-");
    }
    push_digits(&d.int_digits, out);
    if d.frac.len() > 0 {
        out.append(".");
        push_digits(&d.frac, out);
    }
    proof {
        assert(out@ =~= old(out)@ + decimal_chars(*d));
    }
}

/// The five wire metric types.
#[derive(Clone, Copy, Debug, PartialEq, Eq, Structural)]
pub enum MetricType {
    Counter,
    Gauge,
    Histogram,
    Distribution,
    Timer,
}

/// The wire token of a metric type.
pub open spec fn type_token(t: MetricType) -> Seq<char> {
    match t {
        MetricType::Counter => "c"@,
        MetricType::Gauge => "g"@,
        MetricType::Histogram => "h"@,
        MetricType::Distribution => "d"@,
        MetricType::Timer => "ms"@,
    }
}

/// The wire token of a metric type as a string slice.
fn type_str(t: MetricType) -> (r: &'static str)
    ensures
        r@ == type_token(t),
{
    match t {
        MetricType::Counter => "c",
        MetricType::Gauge => "g",
        MetricType::Histogram => "h",
        MetricType::Distribution => "d",
        MetricType::Timer => "ms",
    }
}

/// The numeric payload of a submission.
pub enum MetricValue {
    /// A counter delta, rendered as a signed 64-bit integer.
    Count(u64),
    /// A gauge, histogram or distribution sample, rendered as a decimal.
    Decimal(Decimal),
    /// A timer sample in whole milliseconds.
    Millis(u64),
}

/// The rendering of a submission's value field.
pub open spec fn value_chars(v: MetricValue) -> Seq<char> {
    match v {
        MetricValue::Count(c) => counter_chars(c),
        MetricValue::Decimal(d) => decimal_chars(d),
        MetricValue::Millis(m) => dec_digits(m as nat),
    }
}

/// One tag as `key:value`.
pub open spec fn tag_chars(l: Label) -> Seq<char> {
    l.key@ + ":"@ + l.value@
}

/// The comma-separated tag list, with no trailing comma.
pub open spec fn tags_list_chars(tags: Seq<Label>) -> Seq<char>
    decreases tags.len(),
{
    if tags.len() == 0 {
        Seq::<char>::empty()
    } else if tags.len() == 1 {
        tag_chars(tags[0])
    } else {
        tag_chars(tags[0]) + ","@ + tags_list_chars(tags.drop_first())
    }
}

/// The tag suffix of a line: empty without tags, otherwise `|#` and the
/// comma-separated list.
pub open spec fn tags_suffix_chars(tags: Seq<Label>) -> Seq<char> {
    if tags.len() == 0 {
        Seq::<char>::empty()
    } else {
        "|#"@ + tags_list_chars(tags)
    }
}

/// Appends one tag as `key:value`.
fn push_tag(l: &Label, out: &mut String)
    ensures
        final(out)@ == old(out)@ + tag_chars(*l),
{
    out.append(l.key.as_str());
    out.append(":");
    out.append(l.value.as_str());
}

/// Appends the comma-separated tags from position `i` on.
fn push_tags_from(tags: &Vec<Label>, i: usize, out: &mut String)
    requires
        i < tags@.len(),
    ensures
        final(out)@ == old(out)@ + tags_list_chars(tags@.skip(i as int)),
    decreases tags@.len() - i,
{
    let len = tags.len();
    push_tag(&tags[i], out);
    proof {
        assert(tags@.skip(i as int)[0] == tags@[i as int]);
    }
    if i + 1 < len {
        out.append(",");
        push_tags_from(tags, i + 1, out);
        proof {
            assert(tags@.skip(i as int).drop_first() =~= tags@.skip(i as int + 1));
            assert(old(out)@ + tag_chars(tags@[i as int]) + ","@ + tags_list_chars(
                tags@.skip(i as int + 1),
            ) =~= old(out)@ + tags_list_chars(tags@.skip(i as int)));
        }
    } else {
        proof {
            assert(tags@.skip(i as int).len() == 1);
        }
    }
}

/// Appends the tag suffix of a line.
fn push_tags_suffix(tags: &Vec<Label>, out: &mut String)
    ensures
        final(out)@ == old(out)@ + tags_suffix_chars(tags@),
{
    if tags.len() > 0 {
        out.append("|#");
        push_tags_from(tags, 0, out);
        proof {
            assert(tags@.skip(0) =~= tags@);
            assert(old(out)@ + "|#"@ + tags_list_chars(tags@) =~= old(out)@ + tags_suffix_chars(
                tags@,
            ));
        }
    } else {
        proof {
            assert(out@ =~= old(out)@ + tags_suffix_chars(tags@));
        }
    }
}

/// One fully resolved unit of output: the metric type, the (prefixed) name,
/// the numeric value and the tags to emit, in order.
pub struct Submission {
    pub kind: MetricType,
    pub name: String,
    pub value: MetricValue,
    pub tags: Vec<Label>,
}

impl Submission {
    /// The complete wire line of this submission:
    /// `name:value|type[|#k1:v1,k2:v2,...]`.
    pub open spec fn line_chars(self) -> Seq<char> {
        self.name@ + ":"@ + value_chars(self.value) + "|"@ + type_token(self.kind)
            + tags_suffix_chars(self.tags@)
    }

    /// Renders the submission as one wire line.
    pub fn wire_line(&self) -> (r: String)
        ensures
            r@ == self.line_chars(),
    {
        let mut out = String::new();
        out.append(self.name.as_str());
        out.append(":");
        match &self.value {
            MetricValue::Count(c) => push_counter(*c, &mut out),
            MetricValue::Decimal(d) => push_decimal(d, &mut out),
            MetricValue::Millis(m) => push_u64(*m, &mut out),
        }
        out.append("|");
        out.append(type_str(self.kind));
        push_tags_suffix(&self.tags, &mut out);
        proof {
            assert(out@ =~= self.line_chars());
        }
        out
    }
}

/// A pre-formatted metric: one finished wire line carried as text.
pub struct Histogram {
    repr: String,
}

impl View for Histogram {
    type V = Seq<char>;

    closed spec fn view(&self) -> Seq<char> {
        self.repr@
    }
}

impl Histogram {
    /// Wraps a finished wire line.
    pub fn new(repr: String) -> (r: Histogram)
        ensures
            r@ == repr@,
    {
        Histogram { repr }
    }

    /// The wire line this metric renders as.
    pub fn as_metric_str(&self) -> (r: &str)
        ensures
            r@ == self@,
    {
        self.repr.as_str()
    }
}

} // verus!
