//! ULIDs: time-ordered identifiers, as 128-bit values and as text.
//!
//! The upper 48 bits of a ULID are a millisecond timestamp, the lower 80 are
//! random. Its text is the value in base 32, most significant digit first.
use crate::location;
use ulid::Ulid;
use vstd::prelude::*;

verus! {

/// The number of characters in the text of a ULID.
pub const ULID_LEN: u64 = 26;

/// The character that stands for the base-32 digit `digit`.
pub open spec fn digit_char(digit: int) -> char {
    seq![
        '0', '1', '2', '3', '4', '5', '6', '7', '8', '9', 'A', 'B', 'C', 'D', 'E', 'F',
        'G', 'H', 'J', 'K', 'M', 'N', 'P', 'Q', 'R', 'S', 'T', 'V', 'W', 'X', 'Y', 'Z',
    ][digit]
}

/// The digit that a character stands for, if it stands for one. Lower case
/// letters stand for what their upper case does.
pub open spec fn char_digit(c: char) -> Option<int> {
    if '0' <= c <= '9' {
        Some(c as int - '0' as int)
    } else if 'A' <= c <= 'H' {
        Some(c as int - 'A' as int + 10)
    } else if 'J' <= c <= 'K' {
        Some(c as int - 'J' as int + 18)
    } else if 'M' <= c <= 'N' {
        Some(c as int - 'M' as int + 20)
    } else if 'P' <= c <= 'T' {
        Some(c as int - 'P' as int + 22)
    } else if 'V' <= c <= 'Z' {
        Some(c as int - 'V' as int + 27)
    } else if 'a' <= c <= 'h' {
        Some(c as int - 'a' as int + 10)
    } else if 'j' <= c <= 'k' {
        Some(c as int - 'j' as int + 18)
    } else if 'm' <= c <= 'n' {
        Some(c as int - 'm' as int + 20)
    } else if 'p' <= c <= 't' {
        Some(c as int - 'p' as int + 22)
    } else if 'v' <= c <= 'z' {
        Some(c as int - 'v' as int + 27)
    } else {
        None
    }
}

/// The last `len` base-32 digits of `value`, as text.
pub open spec fn base32(value: nat, len: nat) -> Seq<char>
    decreases len,
{
    if len == 0 {
        Seq::empty()
    } else {
        base32(value / 32, (len - 1) as nat).push(digit_char((value % 32) as int))
    }
}

/// The text of a ULID.
pub open spec fn ulid_text(value: u128) -> Seq<char> {
    base32(value as nat, ULID_LEN as nat)
}

/// Whether every character of a text stands for a digit.
pub open spec fn all_digits(text: Seq<char>) -> bool {
    forall|i: int| 0 <= i < text.len() ==> char_digit(#[trigger] text[i]) is Some
}

/// The number whose base-32 digits a text gives.
pub open spec fn base32_value(text: Seq<char>) -> nat
    decreases text.len(),
{
    if text.len() == 0 {
        0
    } else {
        match char_digit(text.last()) {
            Some(digit) => (base32_value(text.drop_last()) * 32 + digit) as nat,
            None => 0,
        }
    }
}

/// The ULID that a text reads as: one of the right length made of digits reads
/// as their value, cut to 128 bits.
pub open spec fn ulid_value(text: Seq<char>) -> Option<u128> {
    if text.len() == ULID_LEN && all_digits(text) {
        Some((base32_value(text) as int % (u128::MAX + 1)) as u128)
    } else {
        None
    }
}

/// The timestamp of a ULID.
pub open spec fn ulid_millis(value: u128) -> u64 {
    (value / 0x1_0000_0000_0000_0000_0000) as u64
}

/// Whether `left` comes before `right` in the order that listings are in.
pub open spec fn text_less(left: Seq<char>, right: Seq<char>) -> bool {
    exists|k: int|
        #![trigger left[k]]
        0 <= k < left.len() && k < right.len() && left.take(k) == right.take(k) && left[k]
            < right[k]
}

/// 32 to the power of `len`.
pub open spec fn power_of_32(len: nat) -> nat
    decreases len,
{
    if len == 0 {
        1
    } else {
        32 * power_of_32((len - 1) as nat)
    }
}

/// The text of a digit reads as that digit, and is a letter or a number.
proof fn lemma_digit(digit: int)
    requires
        0 <= digit < 32,
    ensures
        char_digit(digit_char(digit)) == Some(digit),
        location::is_plain_char(digit_char(digit)),
        digit_char(digit) != '.',
{
}

/// The digits of a number give its value back, as far as there is room for it.
proof fn lemma_base32(value: nat, len: nat)
    ensures
        base32(value, len).len() == len,
        all_digits(base32(value, len)),
        value < power_of_32(len) ==> base32_value(base32(value, len)) == value,
        forall|i: int|
            0 <= i < len ==> location::is_plain_char(#[trigger] base32(value, len)[i]) && base32(value, len)[i]
                != '.',
    decreases len,
{
    if len > 0 {
        let shorter = (len - 1) as nat;
        lemma_base32(value / 32, shorter);
        lemma_digit((value % 32) as int);
        let text = base32(value, len);
        assert(text.drop_last() =~= base32(value / 32, shorter));
        assert forall|i: int| 0 <= i < len implies char_digit(#[trigger] text[i]) is Some
            && location::is_plain_char(text[i]) && text[i] != '.' by {
            if i < shorter {
                assert(text[i] == base32(value / 32, shorter)[i]);
            }
        }
    }
}

/// The smaller of two numbers has the smaller text.
proof fn lemma_base32_order(left: nat, right: nat, len: nat)
    requires
        left < right < power_of_32(len),
    ensures
        text_less(base32(left, len), base32(right, len)),
    decreases len,
{
    let shorter = (len - 1) as nat;
    let (a, b) = (base32(left, len), base32(right, len));
    let (p, q) = (base32(left / 32, shorter), base32(right / 32, shorter));
    lemma_base32(left / 32, shorter);
    lemma_base32(right / 32, shorter);
    if left / 32 == right / 32 {
        assert(a.take(shorter as int) =~= b.take(shorter as int));
        assert(a[shorter as int] < b[shorter as int]);
    } else {
        lemma_base32_order(left / 32, right / 32, shorter);
        let k = choose|k: int|
            #![trigger p[k]]
            0 <= k < p.len() && k < q.len() && p.take(k) == q.take(k) && p[k] < q[k];
        assert(a.take(k) =~= p.take(k));
        assert(b.take(k) =~= q.take(k));
        assert(a[k] == p[k] && b[k] == q[k]);
    }
}

/// Every 128-bit number has room in the digits of a ULID.
proof fn lemma_ulid_room(value: u128)
    ensures
        value < power_of_32(ULID_LEN as nat),
{
    reveal_with_fuel(power_of_32, 27);
}

/// What the text of a ULID reads as is that ULID.
pub proof fn ulid_text_reads_back(value: u128)
    ensures
        ulid_value(ulid_text(value)) == Some(value),
{
    lemma_ulid_room(value);
    lemma_base32(value as nat, ULID_LEN as nat);
}

/// The text of a ULID holds letters and digits only.
pub proof fn ulid_text_is_plain(value: u128)
    ensures
        ulid_text(value).len() == ULID_LEN,
        forall|i: int|
            0 <= i < ULID_LEN ==> location::is_plain_char(#[trigger] ulid_text(value)[i])
                && ulid_text(value)[i] != '.',
{
    lemma_base32(value as nat, ULID_LEN as nat);
}

/// Of two ULIDs, the text of the one with the earlier timestamp sorts first.
pub proof fn ulid_text_sorts_by_time(earlier: u128, later: u128)
    requires
        ulid_millis(earlier) < ulid_millis(later),
    ensures
        text_less(ulid_text(earlier), ulid_text(later)),
{
    lemma_ulid_room(later);
    lemma_base32_order(earlier as nat, later as nat, ULID_LEN as nat);
}

/// Calls `Ulid::from_datetime` for the instant `at_ms` milliseconds after the
/// epoch: the timestamp of the ULID is that instant, the rest is random.
#[verifier::external_body]
fn mint(at_ms: u64) -> (value: u128)
    requires
        at_ms < 0x1_0000_0000_0000,
    ensures
        ulid_millis(value) == at_ms,
{
    let instant = std::time::UNIX_EPOCH + std::time::Duration::from_millis(at_ms);
    Ulid::from_datetime(instant).0
}

/// Whether a ULID is one that was minted for the instant `at_ms`, its other bits
/// drawn at random.
pub closed spec fn is_minted(at_ms: u64, value: u128) -> bool {
    call_ensures(mint, (at_ms,), value)
}

/// A ULID counts as minted for an instant only where minting one for it gave it,
/// and it carries that instant.
proof fn minted_is_what_was_given(at_ms: u64, value: u128)
    requires
        is_minted(at_ms, value),
    ensures
        call_ensures(mint, (at_ms,), value),
        value / 0x1_0000_0000_0000_0000_0000 == at_ms,
{
    assert(value / 0x1_0000_0000_0000_0000_0000 <= 0xffff_ffff_ffff) by (bit_vector);
}

/// Mints a ULID for the instant `at_ms` milliseconds after the epoch.
pub(crate) fn new_ulid(at_ms: u64) -> (value: u128)
    requires
        at_ms < 0x1_0000_0000_0000,
    ensures
        is_minted(at_ms, value),
        ulid_millis(value) == at_ms,
{
    mint(at_ms)
}

/// Calls `Ulid::to_string`: the value in base 32, in 26 upper case characters.
#[verifier::external_body]
pub(crate) fn format_ulid(value: u128) -> (text: String)
    ensures
        text@ == ulid_text(value),
{
    Ulid(value).to_string()
}

/// Calls `Ulid::from_string`: 26 characters that are all digits in either case
/// read as a ULID, and nothing else does. Bits beyond the 128th are dropped.
#[verifier::external_body]
pub(crate) fn parse_ulid(text: &str) -> (value: Option<u128>)
    ensures
        value == ulid_value(text@),
{
    match Ulid::from_string(text) {
        Ok(ulid) => Some(ulid.0),
        Err(_) => None,
    }
}

/// Calls `Ulid::timestamp_ms`: the upper 48 bits of the value.
#[verifier::external_body]
pub(crate) fn timestamp_ms(value: u128) -> (millis: u64)
    ensures
        millis == ulid_millis(value),
{
    Ulid(value).timestamp_ms()
}

} // verus!
