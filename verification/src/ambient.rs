//! What the library takes from outside itself: fresh identifiers, the
//! clock, a random choice, and the written form of identifiers and times of
//! day. Nothing here is proved: each contract is taken on trust.
use vstd::prelude::*;
use crate::models::misc::timestamp::{DayTime, Timestamp};
use chrono::Timelike;
use rand::Rng;

verus! {

/// Whether a 128-bit value is an identifier of the random kind: its version
/// digit is 4 and its variant bits are `10`, and the other 122 bits are
/// free.
pub open spec fn is_random_id(id: u128) -> bool {
    id & 0x0000_0000_0000_f000_c000_0000_0000_0000 == 0x0000_0000_0000_4000_8000_0000_0000_0000
}

/// A fresh random identifier: `uuid::Uuid::new_v4()`, as its 128-bit value.
///
/// Every outcome is an identifier of the random kind: `new_v4` sets the
/// version and variant bits on whatever it draws. Nothing is claimed of the
/// other bits: two calls may or may not differ. The crate panics where the
/// system gives it no randomness.
#[verifier::external_body]
pub(crate) fn fresh_id() -> (id: u128)
    ensures
        is_random_id(id),
{
    uuid::Uuid::new_v4().as_u128()
}

/// The current time: `chrono::Utc::now()`, as seconds and nanoseconds
/// (`timestamp` and `timestamp_subsec_nanos`).
///
/// Nothing is claimed of the value. chrono panics where the system clock
/// stands before 1970.
#[verifier::external_body]
pub(crate) fn now() -> (t: Timestamp) {
    let t = chrono::Utc::now();
    Timestamp { secs: t.timestamp(), nanos: t.timestamp_subsec_nanos() }
}

/// A random index below `n`: `rand::thread_rng().gen_range(0..n)`.
///
/// `gen_range` panics on an empty range, hence `n > 0`; it samples from the
/// half-open range, so the index is below `n`. `thread_rng` panics where the
/// system gives it no randomness to start from.
#[verifier::external_body]
pub(crate) fn random_index(n: usize) -> (i: usize)
    requires
        n > 0,
    ensures
        i < n,
{
    rand::thread_rng().gen_range(0..n)
}

/// The time of day at `hour:min:sec`: `chrono::NaiveTime::from_hms_opt`,
/// read back through `num_seconds_from_midnight` and `nanosecond`.
///
/// chrono accepts hours below 24 and minutes and seconds below 60, refuses
/// everything else, and counts the seconds from midnight with no fraction.
#[verifier::external_body]
pub(crate) fn day_time(hour: u32, min: u32, sec: u32) -> (r: Option<DayTime>)
    ensures
        match r {
            Some(t) => hour < 24 && min < 60 && sec < 60 && t.secs == hour * 3600 + min * 60 + sec
                && t.frac == 0,
            None => hour >= 24 || min >= 60 || sec >= 60,
        },
{
    match chrono::NaiveTime::from_hms_opt(hour, min, sec) {
        Some(t) => Some(DayTime { secs: t.num_seconds_from_midnight(), frac: t.nanosecond() }),
        None => None,
    }
}

/// The error of the `uuid` crate.
#[verifier::external_type_specification]
#[verifier::external_body]
pub struct ExUuidError(uuid::Error);

/// The identifier that `uuid::Uuid::parse_str` reads from a text, as its
/// 128-bit value; `None` where it refuses the text.
pub uninterp spec fn uuid_parsed(text: Seq<char>) -> Option<u128>;

/// The text that `uuid::Uuid` writes for an identifier: `to_string` on
/// `from_u128` of the value.
pub uninterp spec fn uuid_text(id: u128) -> Seq<char>;

/// Reads an identifier: `uuid::Uuid::parse_str`, then `as_u128`.
///
/// The outcome depends on the text alone.
#[verifier::external_body]
pub(crate) fn parse_id(text: &str) -> (r: Result<u128, uuid::Error>)
    ensures
        match r {
            Ok(id) => uuid_parsed(text@) == Some(id),
            Err(_) => uuid_parsed(text@) is None,
        },
{
    match uuid::Uuid::parse_str(text) {
        Ok(id) => Ok(id.as_u128()),
        Err(e) => Err(e),
    }
}

/// Writes an identifier: `uuid::Uuid::from_u128`, then `to_string`.
///
/// The text depends on the value alone, and is one that `parse_str` reads
/// back as the same value: the crate documents that its parser takes every
/// format that it writes.
#[verifier::external_body]
pub(crate) fn id_text(id: u128) -> (r: String)
    ensures
        r@ == uuid_text(id),
        uuid_parsed(r@) == Some(id),
{
    uuid::Uuid::from_u128(id).to_string()
}

} // verus!
