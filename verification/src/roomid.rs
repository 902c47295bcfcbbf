//! Room identifier generation for the host.
//!
//! The host names its room with a random identifier when it opens it, and
//! answers discovery requests with that identifier; the joiner must echo
//! it in its join request.

use vstd::prelude::*;

verus! {

/// Relies on rand::random: a uniformly drawn value of the requested type.
/// Nothing can be promised of a random result.
pub assume_specification<T>[ rand::random::<T> ]() -> (r: T)
    where rand::distributions::Standard: rand::distributions::Distribution<T>,
;

/// A freshly drawn room identifier for a new room.
pub fn fresh_room_id() -> u32 {
    rand::random::<u32>()
}

/// A four-digit room code displayed to the player, derived from a raw
/// random draw: always in 1000..=9999.
pub fn room_code_from(raw: u32) -> (code: u32)
    ensures
        1000 <= code < 10000,
        code == 1000 + raw % 9000,
{
    1000 + raw % 9000
}

/// A freshly drawn four-digit room code.
pub fn fresh_room_code() -> (code: u32)
    ensures
        1000 <= code < 10000,
{
    room_code_from(rand::random::<u32>())
}

} // verus!
