use vstd::prelude::*;

verus! {

/// Shortest interval, in microseconds, that a rate is computed over: two
/// samples closer together than this are treated as this far apart.
pub const MIN_ELAPSED_MICROS: u64 = 1000;

pub const MICROS_PER_SEC: u64 = 1_000_000;

/// Growth of a cumulative counter; a counter that went backwards (it was
/// reset) counts as no growth.
pub open spec fn counter_growth(prev: u64, cur: u64) -> nat {
    if cur >= prev {
        (cur - prev) as nat
    } else {
        0
    }
}

/// The interval a rate is computed over, with the floor applied.
pub open spec fn effective_micros(elapsed_micros: u64) -> nat {
    if elapsed_micros < MIN_ELAPSED_MICROS {
        MIN_ELAPSED_MICROS as nat
    } else {
        elapsed_micros as nat
    }
}

/// Bytes per second from two readings of a cumulative counter taken
/// `elapsed_micros` apart, truncated, and capped at `u64::MAX`.
pub open spec fn spec_byte_rate(prev: u64, cur: u64, elapsed_micros: u64) -> u64 {
    let r = counter_growth(prev, cur) * (MICROS_PER_SEC as nat) / effective_micros(elapsed_micros);
    if r > u64::MAX {
        u64::MAX
    } else {
        r as u64
    }
}

/// Saturating sum of counters.
pub open spec fn sum_saturating(vals: Seq<u64>) -> u64
    decreases vals.len(),
{
    if vals.len() == 0 {
        0
    } else {
        let s = sum_saturating(vals.drop_last()) + vals.last();
        if s > u64::MAX {
            u64::MAX
        } else {
            s as u64
        }
    }
}

pub fn byte_rate(prev: u64, cur: u64, elapsed_micros: u64) -> (r: u64)
    ensures
        r == spec_byte_rate(prev, cur, elapsed_micros),
{
    let growth: u64 = if cur >= prev {
        cur - prev
    } else {
        0
    };
    let micros: u64 = if elapsed_micros < MIN_ELAPSED_MICROS {
        MIN_ELAPSED_MICROS
    } else {
        elapsed_micros
    };
    assert((growth as nat) * (MICROS_PER_SEC as nat) <= (u64::MAX as nat) * 1_000_000)
        by (nonlinear_arith)
        requires
            growth <= u64::MAX,
    ;
    let scaled: u128 = (growth as u128) * (MICROS_PER_SEC as u128);
    let r: u128 = scaled / (micros as u128);
    if r > u64::MAX as u128 {
        u64::MAX
    } else {
        r as u64
    }
}

/// Total of per-interface cumulative counters, saturating at `u64::MAX`.
pub fn sum_counters(vals: &Vec<u64>) -> (r: u64)
    ensures
        r == sum_saturating(vals@),
{
    let mut total: u64 = 0;
    let mut i: usize = 0;
    while i < vals.len()
        invariant
            i <= vals@.len(),
            total == sum_saturating(vals@.subrange(0, i as int)),
        decreases vals.len() - i,
    {
        assert(vals@.subrange(0, i as int + 1).drop_last() =~= vals@.subrange(0, i as int));
        total = total.saturating_add(vals[i]);
        i = i + 1;
    }
    assert(vals@.subrange(0, i as int) =~= vals@);
    total
}

/// Cumulative network counters at the last sample, and when it was taken
/// (microseconds on a monotonic clock).
#[derive(Clone, Copy, Debug, PartialEq, Eq, Structural)]
pub struct NetworkTracker {
    pub last_micros: u64,
    pub last_rx: u64,
    pub last_tx: u64,
}

impl NetworkTracker {
    pub fn new(now_micros: u64, rx: u64, tx: u64) -> (r: Self)
        ensures
            r == (NetworkTracker { last_micros: now_micros, last_rx: rx, last_tx: tx }),
    {
        NetworkTracker { last_micros: now_micros, last_rx: rx, last_tx: tx }
    }

    /// Receive and transmit rates, in bytes per second, since the previous
    /// sample; the readings given become the previous sample.
    pub fn sample(&mut self, now_micros: u64, rx: u64, tx: u64) -> (r: (u64, u64))
        ensures
            r.0 == spec_byte_rate(
                old(self).last_rx,
                rx,
                sat_elapsed(old(self).last_micros, now_micros),
            ),
            r.1 == spec_byte_rate(
                old(self).last_tx,
                tx,
                sat_elapsed(old(self).last_micros, now_micros),
            ),
            *final(self) == (NetworkTracker { last_micros: now_micros, last_rx: rx, last_tx: tx }),
    {
        let elapsed = now_micros.saturating_sub(self.last_micros);
        let rx_rate = byte_rate(self.last_rx, rx, elapsed);
        let tx_rate = byte_rate(self.last_tx, tx, elapsed);
        *self = NetworkTracker { last_micros: now_micros, last_rx: rx, last_tx: tx };
        (rx_rate, tx_rate)
    }
}

/// Time between two clock readings; a reading earlier than the previous one
/// gives zero.
pub open spec fn sat_elapsed(prev: u64, now: u64) -> u64 {
    if now >= prev {
        (now - prev) as u64
    } else {
        0
    }
}

/// A rate is never negative: a counter that did not go backwards yields its
/// growth per second, and one that went backwards (it was reset) yields zero.
pub proof fn lemma_rate_clamped(prev: u64, cur: u64, elapsed_micros: u64)
    ensures
        cur >= prev ==> spec_byte_rate(prev, cur, elapsed_micros) as int == vstd::math::min(
            (cur - prev) * 1_000_000 / effective_micros(elapsed_micros) as int,
            u64::MAX as int,
        ),
        cur < prev ==> spec_byte_rate(prev, cur, elapsed_micros) == 0,
        spec_byte_rate(prev, cur, elapsed_micros) >= 0,
{
}

} // verus!
