//! Small helpers of the agent.

use core::time::Duration;
use vstd::prelude::*;

verus! {

/// The number of whole seconds in a duration, as `Duration::as_secs` gives it.
pub uninterp spec fn whole_seconds(d: Duration) -> u64;

/// The part of a duration below a second, in nanoseconds, as
/// `Duration::subsec_nanos` gives it.
pub uninterp spec fn nanos_below_a_second(d: Duration) -> u32;

/// `Duration::from_secs`: the duration of `secs` whole seconds, with nothing
/// below a second.
#[verifier::external_body]
fn seconds(secs: u64) -> (d: Duration)
    ensures
        whole_seconds(d) == secs,
        nanos_below_a_second(d) == 0,
{
    Duration::from_secs(secs)
}

/// `Rng::gen_range` on `rand::thread_rng()`, over the inclusive range from
/// `low` to `high`, which must not be empty: some number in that range.
#[verifier::external_body]
fn random_between(low: i64, high: i64) -> (n: i64)
    requires
        low <= high,
    ensures
        low <= n <= high,
{
    rand::Rng::gen_range(&mut rand::thread_rng(), low..=high)
}

/// The seconds to wait when the interval is `interval` minutes and the splay
/// moved it by `offset` seconds. Where that comes to nothing, a minute. A sum
/// below zero wraps around, as in two's complement, to a wait without end.
pub open spec fn splayed(interval: int, offset: int) -> int {
    let total = interval * 60 + offset;
    if total == 0 {
        60
    } else if total < 0 {
        total + 0x1_0000_0000_0000_0000
    } else {
        total
    }
}

/// The seconds to wait when the interval is `interval` minutes and the splay
/// moved it by `offset` seconds.
pub fn splayed_seconds(interval: u64, offset: i64) -> (secs: u64)
    requires
        interval * 60 <= i64::MAX,
        interval * 60 + offset <= i64::MAX,
    ensures
        secs == splayed(interval as int, offset as int),
{
    let minutes: i64 = (interval * 60) as i64;
    let total: i64 = minutes + offset;
    if total == 0 {
        60
    } else if total < 0 {
        let below: u64 = (-(total + 1)) as u64;
        u64::MAX - below
    } else {
        total as u64
    }
}

/// How long to wait before the next pull: `interval` minutes, moved by a
/// random number of seconds, at most `splay` either way. The wait is a whole
/// number of seconds.
pub fn generate_duration(interval: u64, splay: u64) -> (d: Duration)
    requires
        interval * 60 + splay <= i64::MAX,
    ensures
        nanos_below_a_second(d) == 0,
        exists|offset: int|
            -splay <= offset <= splay && whole_seconds(d) == #[trigger] splayed(
                interval as int,
                offset,
            ),
{
    let most: i64 = splay as i64;
    let offset = random_between(-most, most);
    let secs = splayed_seconds(interval, offset);
    assert(secs == splayed(interval as int, offset as int));
    seconds(secs)
}

/// The token that the agent hands out with its capabilities and expects back
/// with an upload.
pub fn generate_token() -> (token: String)
    ensures
        token@ == "spiderman"@,
{
    "spiderman".to_string()
}

} // verus!
