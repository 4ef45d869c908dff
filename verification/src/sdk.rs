//! The SDK: the rules that the client applies to what it sends to and
//! receives from the Agones SDK server, and the decisions it takes while it
//! connects.

pub mod connect;
pub mod gameserver;

pub use gameserver::GameServer;

use crate::foreign::{duration_as_secs, whole_secs};
use crate::proto::{alpha, api};
use vstd::prelude::*;

verus! {

/// The message that carries nothing, sent with the calls that take no
/// argument.
pub fn empty() -> (e: api::Empty)
    ensures
        e == (api::Empty {}),
{
    api::Empty {}
}

/// The number of seconds to reserve the game server for, given the asked
/// duration's whole seconds: those seconds read as an `i64`, but at least 1.
pub open spec fn reserve_seconds(secs: u64) -> i64 {
    if (secs as i64) < 1 {
        1
    } else {
        secs as i64
    }
}

/// The request that reserves the game server for `duration`. Reservations
/// have a resolution of whole seconds, and the shortest one is one second.
pub fn reserve_request(duration: core::time::Duration) -> (r: api::Duration)
    ensures
        r.seconds == reserve_seconds(whole_secs(duration)),
        r.seconds >= 1,
        1 <= whole_secs(duration) <= i64::MAX ==> r.seconds == whole_secs(duration),
        whole_secs(duration) == 0 || whole_secs(duration) > i64::MAX ==> r.seconds == 1,
{
    let whole = duration_as_secs(&duration);
    proof {
        law_reserve_seconds(whole);
    }
    let secs = whole as i64;
    api::Duration { seconds: if secs < 1 { 1 } else { secs } }
}

/// Reserving keeps the whole seconds asked for when there is at least one and
/// they fit in an `i64`; zero seconds, and counts too large for an `i64`
/// (which read as negative), become one second.
pub proof fn law_reserve_seconds(secs: u64)
    ensures
        1 <= secs <= i64::MAX ==> reserve_seconds(secs) == secs,
        secs == 0 || secs > i64::MAX ==> reserve_seconds(secs) == 1,
        reserve_seconds(secs) >= 1,
{
    if secs > i64::MAX {
        assert((secs as i64) < 0) by (bit_vector)
            requires
                secs > 0x7fff_ffff_ffff_ffffu64,
        ;
    }
}

/// The request that sets the player capacity to `count`, which the protocol
/// carries as an `i64`: the same bits, so the same value for every count up
/// to `i64::MAX`.
pub fn player_capacity_request(count: u64) -> (r: alpha::Count)
    ensures
        r.count == count as i64,
        count <= i64::MAX ==> r.count == count,
{
    alpha::Count { count: count as i64 }
}

/// The number of players that a count of the protocol stands for, read as a
/// `u64`: the same bits, so the same value for every count that is not
/// negative.
pub fn count_value(c: alpha::Count) -> (n: u64)
    ensures
        n == c.count as u64,
        c.count >= 0 ==> n == c.count,
{
    c.count as u64
}

} // verus!
