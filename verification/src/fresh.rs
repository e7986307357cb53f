//! Values that differ from call to call: random identifiers, random
//! characters, and the time.

use vstd::prelude::*;

verus! {

/// Whether `b` is an ASCII letter or digit.
pub open spec fn is_alphanumeric_byte(b: u8) -> bool {
    (0x30 <= b <= 0x39) || (0x41 <= b <= 0x5a) || (0x61 <= b <= 0x7a)
}

/// Calls `sample` of `rand::thread_rng()` with the distribution
/// `Alphanumeric`: a random ASCII letter or digit.
#[verifier::external_body]
pub(crate) fn sample_alphanumeric() -> (b: u8)
    ensures
        is_alphanumeric_byte(b),
{
    rand::Rng::sample(&mut rand::thread_rng(), rand::distributions::Alphanumeric)
}

/// Whether `id` has the form of a random identifier: of its 128 bits the
/// four of the version field read 4 and the two of the variant field read
/// binary 10; the other 122 are free.
pub open spec fn is_random_id(id: u128) -> bool {
    id & 0x0000_0000_0000_f000_c000_0000_0000_0000u128
        == 0x0000_0000_0000_4000_8000_0000_0000_0000u128
}

/// Calls `uuid::Uuid::new_v4` and `as_u128`: a random identifier, as its
/// 128-bit value. The crate draws 128 random bits and then sets the
/// version field to 4 and the variant field to binary 10, so every
/// outcome has that form.
#[verifier::external_body]
pub(crate) fn fresh_id() -> (id: u128)
    ensures
        is_random_id(id),
{
    uuid::Uuid::new_v4().as_u128()
}

/// Calls `chrono::Utc::now`: the current time in microseconds since the
/// Unix epoch.
#[verifier::external_body]
pub(crate) fn now_micros() -> i64 {
    chrono::Utc::now().timestamp_micros()
}

} // verus!
