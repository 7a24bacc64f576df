use vstd::prelude::*;

use crate::SwapError;

verus! {

/// One message of the relay's tip-percentile feed: the lamport tip
/// observed at each published percentile.
#[derive(Clone, Copy, Debug, PartialEq, Eq, Structural)]
pub struct TipPercentiles {
    pub p25: u64,
    pub p50: u64,
    pub p75: u64,
    pub p95: u64,
    pub p99: u64,
}

/// A percentile bucket of the relay's tip distribution.
#[derive(Clone, Copy, Debug, PartialEq, Eq, Structural)]
pub enum Percentile {
    Pct25,
    Pct50,
    Pct75,
    Pct95,
    Pct99,
}

/// The lamport value a snapshot holds at a percentile bucket.
pub open spec fn spec_tip_at(t: TipPercentiles, p: Percentile) -> u64 {
    match p {
        Percentile::Pct25 => t.p25,
        Percentile::Pct50 => t.p50,
        Percentile::Pct75 => t.p75,
        Percentile::Pct95 => t.p95,
        Percentile::Pct99 => t.p99,
    }
}

/// The rolling view of the relay's tip distribution: the latest
/// snapshot of percentile-to-lamport pairs, replaced whole on every
/// stream message so a reader never sees a half-updated distribution.
/// `None` until the first message arrives.
#[derive(Clone, Copy, Debug, PartialEq, Eq, Structural)]
pub struct TipMonitor {
    pub latest: Option<TipPercentiles>,
}

/// What a percentile lookup returns, for every monitor state: the
/// latest snapshot's value at that percentile, or `Unavailable`
/// before any message has arrived.
pub open spec fn spec_current_tip(m: TipMonitor, p: Percentile) -> Result<u64, SwapError> {
    match m.latest {
        Option::Some(t) => Ok(spec_tip_at(t, p)),
        Option::None => Err(SwapError::Unavailable),
    }
}

/// A monitor's state after one more stream message: the whole
/// snapshot is the message, whatever was held before.
pub open spec fn spec_on_message(m: TipMonitor, msg: TipPercentiles) -> TipMonitor {
    TipMonitor { latest: Option::Some(msg) }
}

/// A monitor's state after a whole run of stream messages, applied in
/// order from an empty start.
pub open spec fn spec_monitor_after(msgs: Seq<TipPercentiles>) -> TipMonitor
    decreases msgs.len(),
{
    if msgs.len() == 0 {
        TipMonitor { latest: Option::None }
    } else {
        spec_on_message(spec_monitor_after(msgs.drop_last()), msgs.last())
    }
}

impl TipMonitor {
    /// The monitor starts empty: no distribution has been observed.
    pub fn new() -> (r: TipMonitor)
        ensures
            r.latest is None,
            r == spec_monitor_after(Seq::<TipPercentiles>::empty()),
    {
        TipMonitor { latest: Option::None }
    }

    /// Take one inbound stream message, atomically replacing the
    /// current snapshot with the message's whole distribution.
    pub fn on_message(&mut self, msg: TipPercentiles)
        ensures
            *final(self) == spec_on_message(*old(self), msg),
            final(self).latest == Option::Some(msg),
    {
        self.latest = Option::Some(msg);
    }

    /// The tip at a percentile of the latest observed distribution,
    /// or `Unavailable` before any message has arrived.
    pub fn current_tip(&self, p: Percentile) -> (r: Result<u64, SwapError>)
        ensures
            r == spec_current_tip(*self, p),
    {
        match &self.latest {
            Option::Some(t) => Ok(
                match p {
                    Percentile::Pct25 => t.p25,
                    Percentile::Pct50 => t.p50,
                    Percentile::Pct75 => t.p75,
                    Percentile::Pct95 => t.p95,
                    Percentile::Pct99 => t.p99,
                },
            ),
            Option::None => Err(SwapError::Unavailable),
        }
    }
}

/// Law: the monitor is never stale beyond the latest message. After
/// any nonempty run of stream messages, the tip it reports at every
/// percentile is exactly the last message's value at that percentile;
/// before any message has arrived, every lookup is `Unavailable`.
pub proof fn lemma_tip_monitor_tracks_latest(msgs: Seq<TipPercentiles>, p: Percentile)
    ensures
        msgs.len() == 0 ==> spec_current_tip(spec_monitor_after(msgs), p) == Err::<u64, SwapError>(
            SwapError::Unavailable,
        ),
        msgs.len() > 0 ==> spec_current_tip(spec_monitor_after(msgs), p) == Ok::<u64, SwapError>(
            spec_tip_at(msgs.last(), p),
        ),
{
}

/// The tip a priority submission carries, for every monitor state:
/// the chosen percentile of the latest distribution, or the fallback
/// while no message has arrived.
pub open spec fn spec_choose_tip(m: TipMonitor, p: Percentile, min_tip_lamports: u64) -> u64 {
    match m.latest {
        Option::Some(t) => spec_tip_at(t, p),
        Option::None => min_tip_lamports,
    }
}

/// The tip to attach to a priority submission: the chosen percentile
/// of the latest distribution, or the configured minimum fallback tip
/// while the stream has not yet delivered a message. Total: a missing
/// stream degrades the tip, it never fails the swap.
pub fn choose_tip(monitor: &TipMonitor, p: Percentile, min_tip_lamports: u64) -> (r: u64)
    ensures
        r == spec_choose_tip(*monitor, p, min_tip_lamports),
        monitor.latest is None ==> r == min_tip_lamports,
        monitor.latest matches Some(t) ==> r == spec_tip_at(t, p),
{
    match monitor.current_tip(p) {
        Ok(t) => t,
        Err(_) => min_tip_lamports,
    }
}

} // verus!
