//! Historical claim-volume data: resolution names, the monthly
//! timestamps they span, and randomly drawn placeholder volumes.

use vstd::prelude::*;

verus! {

/// Relies on rand::random: draws a value of the standard distribution
/// from the thread-local generator.  Nothing can be promised of a
/// random value.
pub assume_specification<T>[ rand::random::<T> ]() -> (r: T)
    where
        rand::distributions::Standard: rand::distributions::Distribution<T>,
;

/// Thirty days of seconds: the stride between two monthly samples.
pub const MONTH_SECS: u64 = 30 * 24 * 60 * 60;

/// Volumes are drawn below this bound.
pub const VOLUME_BOUND: u32 = 500;

/// One monthly sample: the month's timestamp and its claim volume.
#[derive(Clone, Copy, Debug, PartialEq, Eq, Structural)]
pub struct ClaimPoint {
    pub timestamp_month: u32,
    pub volume: u32,
}

/// How many monthly samples each resolution name asks for; an unknown
/// name asks for none and is rejected.
pub open spec fn months_of(res: Seq<char>) -> Option<u32> {
    if res == "All time"@ {
        Some(60u32)
    } else if res == "1 year"@ {
        Some(12u32)
    } else if res == "3 year"@ {
        Some(36u32)
    } else {
        None
    }
}

/// Map a resolution name to the number of monthly samples it spans.
pub fn resolution_months(resolution: &str) -> (r: Option<u32>)
    ensures
        r == months_of(resolution@),
{
    let rs = resolution.to_owned();
    if rs == "All time".to_owned() {
        Some(60)
    } else if rs == "1 year".to_owned() {
        Some(12)
    } else if rs == "3 year".to_owned() {
        Some(36)
    } else {
        None
    }
}

/// The monthly claim-volume series for a resolution, ending at
/// `now_secs`: one sample per month, thirty days apart, oldest first,
/// each with a random placeholder volume below `VOLUME_BOUND`.  An
/// unknown resolution name yields nothing.
pub fn claim_history(now_secs: u64, resolution: &str) -> (r: Option<Vec<ClaimPoint>>)
    requires
        now_secs <= 0xFFFF_FFFF,
        now_secs >= 60 * MONTH_SECS,
    ensures
        match r {
            Some(v) => months_of(resolution@) matches Some(m) && v@.len() == m as int && (forall|
                j: int,
            |
                0 <= j < v@.len() ==> v@[j].timestamp_month == now_secs - (m - 1 - j) * MONTH_SECS
                    && v@[j].volume < VOLUME_BOUND),
            None => months_of(resolution@) is None,
        },
{
    let m = match resolution_months(resolution) {
        None => {
            return None;
        },
        Some(m) => m,
    };
    proof {
        assert(m == 60 || m == 12 || m == 36);
    }
    let mu = m as usize;
    let mut out: Vec<ClaimPoint> = Vec::new();
    for k in 0..mu
        invariant
            months_of(resolution@) == Some(m),
            12 <= m <= 60,
            mu == m as usize,
            now_secs <= 0xFFFF_FFFF,
            now_secs >= 60 * MONTH_SECS,
            out@.len() == k,
            forall|j: int|
                0 <= j < k ==> out@[j].timestamp_month == now_secs - (m - 1 - j) * MONTH_SECS
                    && out@[j].volume < VOLUME_BOUND,
    {
        proof {
            // the bound checks below need the constant's value
            assert(MONTH_SECS == 2592000);
        }
        let back: u64 = ((mu - 1 - k) as u64) * MONTH_SECS;
        let ts: u64 = now_secs - back;
        let vol: u32 = rand::random::<u32>() % VOLUME_BOUND;
        out.push(ClaimPoint { timestamp_month: ts as u32, volume: vol });
    }
    Some(out)
}

} // verus!
