//! Bounded display text.
//!
//! Lines shown on the panel are built as ASCII bytes in a `Vec<u8>`, fully
//! verified, and only then moved into a fixed-capacity `heapless` string,
//! the type the rest of the firmware and its drivers exchange. The contents
//! of a `heapless::String` are abstracted by the names [`text32`] and
//! [`text16`]: every trusted wrapper below speaks of the stored bytes
//! through them.

use vstd::prelude::*;

verus! {

#[verifier::external_type_specification]
#[verifier::external_body]
pub struct ExHeaplessString<const N: usize>(heapless::String<N>);

/// The bytes held by a 32-byte bounded string.
pub uninterp spec fn text32(s: heapless::String<32>) -> Seq<u8>;

/// The bytes held by a 16-byte bounded string.
pub uninterp spec fn text16(s: heapless::String<16>) -> Seq<u8>;

/// Relies on heapless::Vec::extend_from_slice and heapless::String::from_utf8:
/// ASCII bytes are valid UTF-8 and are stored unchanged, so the new string
/// holds exactly the given bytes.
#[verifier::external_body]
pub(crate) fn bytes_to_text32(v: &Vec<u8>) -> (s: heapless::String<32>)
    requires
        v@.len() <= 32,
        forall|i: int| 0 <= i < v@.len() ==> v@[i] < 128,
    ensures
        text32(s) == v@,
        text32(s).len() <= 32,
{
    let mut hv: heapless::Vec<u8, 32> = heapless::Vec::new();
    let _ = hv.extend_from_slice(v.as_slice());
    match heapless::String::from_utf8(hv) {
        Ok(s) => s,
        Err(_) => heapless::String::new(),
    }
}

/// Relies on heapless::Vec::extend_from_slice and heapless::String::from_utf8:
/// ASCII bytes are valid UTF-8 and are stored unchanged, so the new string
/// holds exactly the given bytes.
#[verifier::external_body]
pub(crate) fn bytes_to_text16(v: &Vec<u8>) -> (s: heapless::String<16>)
    requires
        v@.len() <= 16,
        forall|i: int| 0 <= i < v@.len() ==> v@[i] < 128,
    ensures
        text16(s) == v@,
        text16(s).len() <= 16,
{
    let mut hv: heapless::Vec<u8, 16> = heapless::Vec::new();
    let _ = hv.extend_from_slice(v.as_slice());
    match heapless::String::from_utf8(hv) {
        Ok(s) => s,
        Err(_) => heapless::String::new(),
    }
}

/// Relies on heapless::String::push_str, which appends the source bytes
/// in full when they fit within the capacity of 32 bytes and otherwise
/// leaves the destination untouched; a 16-byte source (at most 16 bytes
/// long) always fits after a destination of at most 16 bytes.
#[verifier::external_body]
pub(crate) fn append_text16(dst: &mut heapless::String<32>, src: &heapless::String<16>) -> (ok:
    bool)
    ensures
        text32(*old(dst)).len() + text16(*src).len() <= 32 ==> ok && text32(*final(dst))
            == text32(*old(dst)) + text16(*src),
        text32(*old(dst)).len() + text16(*src).len() > 32 ==> !ok && text32(*final(dst)) == text32(
            *old(dst),
        ),
        text32(*old(dst)).len() <= 16 ==> ok && text32(*final(dst)) == text32(*old(dst)) + text16(
            *src,
        ),
{
    dst.push_str(src.as_str()).is_ok()
}

/// Relies on heapless::String::as_str: the returned slice is the stored
/// text, so when the stored bytes are all ASCII its characters are
/// exactly those bytes. (A multi-byte character would decode to fewer
/// characters than bytes, so nothing is claimed of such contents.)
#[verifier::external_body]
pub(crate) fn text32_as_str(s: &heapless::String<32>) -> (r: &str)
    ensures
        (forall|i: int| 0 <= i < text32(*s).len() ==> text32(*s)[i] < 128) ==> (r@.len() == text32(
            *s,
        ).len() && forall|i: int| 0 <= i < r@.len() ==> r@[i] as u8 == text32(*s)[i]),
{
    s.as_str()
}

/// The ASCII digit for one decimal digit value.
pub open spec fn digit_byte(d: int) -> u8 {
    (48 + d) as u8
}

/// The decimal digits of a non-negative number, most significant first.
pub open spec fn decimal_digits(n: int) -> Seq<u8>
    decreases n,
{
    if n <= 9 {
        seq![digit_byte(n)]
    } else {
        decimal_digits(n / 10).push(digit_byte(n % 10))
    }
}

/// A centi-scaled value rendered with one decimal place, rounded half away
/// from zero: 2250 becomes "22.5".
pub open spec fn centi_1dp(t: int) -> Seq<u8> {
    let a = if t < 0 {
        -t
    } else {
        t
    };
    let d = (a + 5) / 10;
    let sign: Seq<u8> = if t < 0 {
        seq![45u8]
    } else {
        seq![]
    };
    sign + decimal_digits(d / 10) + seq![46u8, digit_byte(d % 10)]
}

/// A centi-scaled value rendered exactly with two decimal places:
/// 2250 becomes "22.50".
pub open spec fn centi_2dp(t: int) -> Seq<u8> {
    let a = if t < 0 {
        -t
    } else {
        t
    };
    let sign: Seq<u8> = if t < 0 {
        seq![45u8]
    } else {
        seq![]
    };
    sign + decimal_digits(a / 100) + seq![46u8, digit_byte((a % 100) / 10), digit_byte(a % 10)]
}

/// Ten to the `k`.
pub open spec fn pow10(k: nat) -> int
    decreases k,
{
    if k == 0 {
        1
    } else {
        10 * pow10((k - 1) as nat)
    }
}

/// Decimal digits are the ASCII bytes '0' through '9'.
pub proof fn lemma_decimal_digits_ascii(n: int)
    requires
        n >= 0,
    ensures
        forall|i: int|
            0 <= i < decimal_digits(n).len() ==> 48 <= #[trigger] decimal_digits(n)[i] <= 57,
    decreases n,
{
    if n > 9 {
        lemma_decimal_digits_ascii(n / 10);
        assert forall|i: int| 0 <= i < decimal_digits(n).len() implies 48 <= #[trigger] decimal_digits(
            n,
        )[i] <= 57 by {
            if i < decimal_digits(n / 10).len() {
                assert(decimal_digits(n)[i] == decimal_digits(n / 10)[i]);
            } else {
                assert(decimal_digits(n)[i] == digit_byte(n % 10));
            }
        }
    }
}

/// One-decimal rendering of a centi value in `i32` range takes at most
/// 11 bytes, all printable ASCII.
pub proof fn lemma_centi_1dp_props(t: int)
    requires
        -0x8000_0000 <= t <= 0x7fff_ffff,
    ensures
        centi_1dp(t).len() <= 11,
        forall|i: int| 0 <= i < centi_1dp(t).len() ==> 32 <= #[trigger] centi_1dp(t)[i] < 128,
{
    let a = if t < 0 {
        -t
    } else {
        t
    };
    let d = (a + 5) / 10;
    reveal_with_fuel(pow10, 10);
    vstd::arithmetic::div_mod::lemma_div_pos_is_pos(a + 5, 10);
    vstd::arithmetic::div_mod::lemma_div_pos_is_pos(d, 10);
    vstd::arithmetic::div_mod::lemma_div_is_ordered(a + 5, 0x8000_0005, 10);
    vstd::arithmetic::div_mod::lemma_div_is_ordered(d, 214748365, 10);
    assert(0 <= d / 10 < pow10(8));
    lemma_decimal_digits_len(d / 10, 8);
    lemma_decimal_digits_ascii(d / 10);
}

/// Two-decimal rendering of a centi value in `i32` range takes at most
/// 12 bytes, all printable ASCII.
pub proof fn lemma_centi_2dp_props(t: int)
    requires
        -0x8000_0000 <= t <= 0x7fff_ffff,
    ensures
        centi_2dp(t).len() <= 12,
        forall|i: int| 0 <= i < centi_2dp(t).len() ==> 32 <= #[trigger] centi_2dp(t)[i] < 128,
{
    let a = if t < 0 {
        -t
    } else {
        t
    };
    reveal_with_fuel(pow10, 10);
    vstd::arithmetic::div_mod::lemma_div_pos_is_pos(a, 100);
    vstd::arithmetic::div_mod::lemma_div_is_ordered(a, 0x8000_0000, 100);
    assert(0 <= a / 100 < pow10(8));
    lemma_decimal_digits_len(a / 100, 8);
    lemma_decimal_digits_ascii(a / 100);
}

/// A number below ten to the `k` needs at most `k` decimal digits.
pub proof fn lemma_decimal_digits_len(n: int, k: nat)
    requires
        0 <= n < pow10(k),
        1 <= k,
    ensures
        decimal_digits(n).len() <= k,
    decreases n,
{
    if n > 9 {
        assert(pow10(k) == 10 * pow10((k - 1) as nat));
        vstd::arithmetic::div_mod::lemma_fundamental_div_mod(n, 10);
        assert(n / 10 < pow10((k - 1) as nat));
        lemma_decimal_digits_len(n / 10, (k - 1) as nat);
    }
}

/// Appends the decimal digits of `n`.
pub fn push_decimal_digits(out: &mut Vec<u8>, n: u64)
    ensures
        final(out)@ == old(out)@ + decimal_digits(n as int),
    decreases n,
{
    if n <= 9 {
        out.push(48 + (n as u8));
        assert(final(out)@ =~= old(out)@ + decimal_digits(n as int));
    } else {
        push_decimal_digits(out, n / 10);
        out.push(48 + ((n % 10) as u8));
        assert(final(out)@ =~= old(out)@ + decimal_digits(n as int));
    }
}

/// Appends a centi-scaled value with one decimal place.
pub fn push_centi_1dp(out: &mut Vec<u8>, t: i32)
    ensures
        final(out)@ == old(out)@ + centi_1dp(t as int),
{
    let a: u64 = if t < 0 {
        (-(t as i64)) as u64
    } else {
        t as u64
    };
    let d: u64 = (a + 5) / 10;
    if t < 0 {
        out.push(45);
    }
    push_decimal_digits(out, d / 10);
    out.push(46);
    out.push(48 + ((d % 10) as u8));
    assert(final(out)@ =~= old(out)@ + centi_1dp(t as int));
}

/// Appends a centi-scaled value with two decimal places.
pub fn push_centi_2dp(out: &mut Vec<u8>, t: i32)
    ensures
        final(out)@ == old(out)@ + centi_2dp(t as int),
{
    let a: u64 = if t < 0 {
        (-(t as i64)) as u64
    } else {
        t as u64
    };
    if t < 0 {
        out.push(45);
    }
    push_decimal_digits(out, a / 100);
    out.push(46);
    out.push(48 + (((a % 100) / 10) as u8));
    out.push(48 + ((a % 10) as u8));
    assert(final(out)@ =~= old(out)@ + centi_2dp(t as int));
}

} // verus!
