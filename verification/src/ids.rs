//! Fresh identifiers and the current time, as plain integers.

use vstd::prelude::*;

verus! {

/// Version nibble and variant bits of a random (version 4) UUID.
pub open spec fn is_v4_uuid(id: u128) -> bool {
    (id >> 76u128) & 0xfu128 == 4 && (id >> 62u128) & 0x3u128 == 2
}

/// Calls `uuid::Uuid::new_v4` and returns the UUID as its 128-bit big-endian value.
/// The contract claims only what the crate's source fixes of every outcome: the
/// version nibble is 4 and the variant bits are `10`; the other bits are random,
/// so nothing is claimed of them (not even that they differ from an earlier
/// identifier). The crate panics when the operating system gives no random bytes.
#[verifier::external_body]
pub fn new_uuid() -> (id: u128)
    ensures
        is_v4_uuid(id),
{
    uuid::Uuid::new_v4().as_u128()
}

/// An instant, as whole seconds since the Unix epoch and the nanoseconds past that
/// second.
#[derive(Clone, Copy, Debug, PartialEq, Eq, Structural)]
pub struct Timestamp {
    pub secs: i64,
    pub nanos: u32,
}

/// Calls `chrono::Utc::now` and returns the instant at full precision, by
/// `DateTime::timestamp` and `DateTime::timestamp_subsec_nanos`. The value depends
/// on the clock; the contract claims only what the crate's source fixes of every
/// outcome: `now` builds the value from the system time elapsed since the epoch
/// with `DateTime::from_timestamp`, so the seconds are not negative and the
/// nanoseconds stay below one second. The crate panics when the clock reads before
/// 1970.
#[verifier::external_body]
pub fn now() -> (t: Timestamp)
    ensures
        t.secs >= 0,
        t.nanos < 1_000_000_000,
{
    let t = chrono::Utc::now();
    Timestamp { secs: t.timestamp(), nanos: t.timestamp_subsec_nanos() }
}

/// The lower-case hexadecimal digit for `n` (0 to 15).
pub open spec fn hex_lower(n: int) -> char {
    if n < 10 {
        (48 + n) as char
    } else {
        (87 + n) as char
    }
}

/// The `i`-th four-bit group of `id`, counted from the most significant one.
pub open spec fn nibble(id: u128, i: int) -> int {
    ((id >> ((4 * (31 - i)) as u128)) & 15u128) as int
}

/// How many hyphens precede position `p` of a hyphenated UUID.
pub open spec fn hyphens_before(p: int) -> int {
    if p < 8 {
        0
    } else if p < 13 {
        1
    } else if p < 18 {
        2
    } else if p < 23 {
        3
    } else {
        4
    }
}

/// The hyphenated lower-case text of a UUID given by its 128-bit big-endian value:
/// 32 hexadecimal digits, most significant first, in groups of 8, 4, 4, 4 and 12
/// separated by `-`.
pub open spec fn uuid_text(id: u128) -> Seq<char> {
    Seq::new(
        36,
        |p: int|
            if p == 8 || p == 13 || p == 18 || p == 23 {
                '-'
            } else {
                hex_lower(nibble(id, p - hyphens_before(p)))
            },
    )
}

/// Formats a UUID, given by its 128-bit big-endian value, with `Uuid::to_string`
/// (the `Display` impl of `uuid::Uuid`), which writes the hyphenated lower-case form.
#[verifier::external_body]
pub fn uuid_to_text(id: u128) -> (r: String)
    ensures
        r@ == uuid_text(id),
{
    uuid::Uuid::from_u128(id).to_string()
}

} // verus!
