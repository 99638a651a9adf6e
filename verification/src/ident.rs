//! 128-bit identifiers drawn from the `uuid` crate, and their textual form.

use vstd::prelude::*;
use vstd::arithmetic::power::pow;

verus! {

/// Lowercase hexadecimal digit for `0 <= d < 16`.
pub open spec fn hex_char(d: int) -> char {
    if d < 10 {
        (d + 48) as char
    } else {
        (d + 87) as char
    }
}

/// The `k`-th hexadecimal digit of `bits`, counting from the most significant (`k` in `0..32`).
pub open spec fn nibble(bits: u128, k: int) -> int {
    (bits as int / pow(16, (31 - k) as nat)) % 16
}

/// How many hyphens precede position `i` of the hyphenated form.
pub open spec fn hyphens_before(i: int) -> int {
    if i < 8 {
        0
    } else if i < 13 {
        1
    } else if i < 18 {
        2
    } else if i < 23 {
        3
    } else {
        4
    }
}

/// The hyphenated lowercase form `xxxxxxxx-xxxx-xxxx-xxxx-xxxxxxxxxxxx` of a
/// 128-bit identifier, most significant digit first.
pub open spec fn uuid_text(bits: u128) -> Seq<char> {
    Seq::new(
        36,
        |i: int|
            if i == 8 || i == 13 || i == 18 || i == 23 {
                '-'
            } else {
                hex_char(nibble(bits, i - hyphens_before(i)))
            },
    )
}

/// The 128 bits of a random (version 4, RFC 4122 variant) UUID: the version
/// field holds 4 and the two variant bits hold `10`; the other 122 bits are random.
pub open spec fn is_random_uuid(bits: u128) -> bool {
    &&& (bits >> 76u128) & 0xfu128 == 4
    &&& (bits >> 62u128) & 0x3u128 == 2
}

/// Calls `uuid::Uuid::new_v4` and returns its 128 bits (`Uuid::as_u128`). The value
/// is random; `new_v4` masks in the version (4) and variant (`10`) bits, and that is
/// all the contract states of it.
#[verifier::external_body]
pub(crate) fn random_uuid_bits() -> (r: u128)
    ensures
        is_random_uuid(r),
{
    uuid::Uuid::new_v4().as_u128()
}

/// Calls the `Display` of `uuid::Uuid::from_u128(bits)`; the contract states
/// the hyphenated lowercase form that `uuid` writes (most significant digit first).
#[verifier::external_body]
pub(crate) fn uuid_string(bits: u128) -> (r: String)
    ensures
        r@ == uuid_text(bits),
{
    uuid::Uuid::from_u128(bits).to_string()
}

/// Nanoseconds from the Unix epoch to now, from `SystemTime::elapsed` on `UNIX_EPOCH`
/// (`None` when the clock reads earlier than the epoch). It reads the clock, so
/// nothing is promised of the value.
#[verifier::external_body]
fn nanos_since_epoch() -> Option<u128> {
    std::time::UNIX_EPOCH.elapsed().ok().map(|d| d.as_nanos())
}

/// The current time in nanoseconds since the Unix epoch, kept to its low 64 bits;
/// a clock that reads earlier than the epoch gives 0.
pub(crate) fn unix_time_ns() -> u64 {
    match nanos_since_epoch() {
        Some(n) => n as u64,
        None => 0,
    }
}

} // verus!
