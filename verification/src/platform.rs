//! The gateway's contact points with the machine: random identifiers, the
//! clock, and the textual form of identifiers.

use vstd::prelude::*;
use vstd::arithmetic::power2::pow2;

verus! {

/// The lower-case hexadecimal digit of a value below 16.
pub open spec fn hex_digit(d: int) -> char {
    if d < 10 {
        (d + 48) as char
    } else {
        (d + 87) as char
    }
}

/// The `k`-th hexadecimal digit of a UUID's 128 bits, most significant
/// first (`k` from 0 to 31).
pub open spec fn uuid_nibble(id: u128, k: int) -> int {
    (id as int / pow2((4 * (31 - k)) as nat) as int) % 16
}

/// The digit a position of the hyphenated text shows, skipping the hyphens
/// at positions 8, 13, 18 and 23.
pub open spec fn digit_at(i: int) -> int {
    if i < 8 {
        i
    } else if i < 13 {
        i - 1
    } else if i < 18 {
        i - 2
    } else if i < 23 {
        i - 3
    } else {
        i - 4
    }
}

/// The hyphenated lower-case text of a UUID, as `uuid::Uuid`'s `Display`
/// writes it: its 32 hexadecimal digits, most significant first, in groups
/// of 8, 4, 4, 4 and 12 joined by hyphens.
pub open spec fn uuid_text(id: u128) -> Seq<char> {
    Seq::new(
        36,
        |i: int|
            if i == 8 || i == 13 || i == 18 || i == 23 {
                '-'
            } else {
                hex_digit(uuid_nibble(id, digit_at(i)))
            },
    )
}

/// The UUID that `uuid::Uuid::parse_str` reads from a text, if any.
pub uninterp spec fn uuid_parse(s: Seq<char>) -> Option<u128>;

/// A bound on the instants, in milliseconds since the Unix epoch, that
/// `chrono::DateTime<Utc>` can hold (its years lie within about 262 000 years
/// of the epoch).
pub open spec fn instant_bound_ms() -> int {
    10_000_000_000_000_000
}

/// Calls `uuid::Uuid::new_v4`, a random version-4 UUID, given as its 128-bit
/// value. Nothing is stated of the value: it is drawn at random.
#[verifier::external_body]
pub fn fresh_uuid() -> (r: u128) {
    uuid::Uuid::new_v4().as_u128()
}

/// Calls `chrono::Utc::now`, the current instant in milliseconds since the
/// Unix epoch. What it returns depends on the clock; it lies in the range that
/// `chrono::DateTime<Utc>` can hold.
#[verifier::external_body]
pub fn now_millis() -> (r: i64)
    ensures
        -instant_bound_ms() <= r <= instant_bound_ms(),
{
    chrono::Utc::now().timestamp_millis()
}

/// Calls `uuid::Uuid`'s `Display`, which writes the hyphenated lower-case
/// form of the UUID's bytes in big-endian order.
#[verifier::external_body]
pub fn format_uuid(id: u128) -> (r: String)
    ensures
        r@ == uuid_text(id),
{
    uuid::Uuid::from_u128(id).to_string()
}

/// Calls `uuid::Uuid::parse_str`; the result is named `uuid_parse`. The
/// hyphenated lower-case text of a UUID reads back as that UUID.
#[verifier::external_body]
pub fn parse_uuid(s: &str) -> (r: Option<u128>)
    ensures
        r == uuid_parse(s@),
        forall|x: u128| s@ == #[trigger] uuid_text(x) ==> r == Some(x),
{
    match uuid::Uuid::parse_str(s) {
        Ok(u) => Some(u.as_u128()),
        Err(_) => None,
    }
}

} // verus!
