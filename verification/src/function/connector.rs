use vstd::prelude::*;

verus! {

/// The arguments of a connector: the least time between two of its ticks.
#[derive(Copy, Clone, Debug, PartialEq, Eq, Structural)]
pub struct ConnectorArgs {
    pub interval_ms: Option<u64>,
}

/// The arguments of a connector and of the function it runs.
#[derive(Debug)]
pub struct Args<F> {
    pub connector: ConnectorArgs,
    pub function: F,
}

/// The pacing state of a connector: the number of the next tick, counted
/// from zero up to the largest `u64`, after which no tick is paced.
#[derive(Copy, Clone, Debug, PartialEq, Eq, Structural)]
pub struct Connector {
    pub args: ConnectorArgs,
    pub next_iteration: u64,
    pub exhausted: bool,
}

/// How long a tick waits, in nanoseconds, before it runs: where an
/// interval is set and the tick's number times the interval fits in
/// `u64` milliseconds, until that many milliseconds have passed since the
/// connector started; else not at all.
pub open spec fn spec_tick_wait(interval_ms: Option<u64>, iteration: Option<u64>, elapsed_nanos: u128) -> u128 {
    match (interval_ms, iteration) {
        (Some(ms), Some(i)) => if i * ms <= u64::MAX && (i * ms) * 1_000_000 > elapsed_nanos {
            ((i * ms) * 1_000_000 - elapsed_nanos) as u128
        } else {
            0
        },
        _ => 0,
    }
}

impl Connector {
    /// A connector that starts pacing from its first tick.
    pub fn new(args: ConnectorArgs) -> (c: Connector)
        ensures
            c.args == args,
            c.next_iteration == 0,
            !c.exhausted,
    {
        Connector { args, next_iteration: 0, exhausted: false }
    }

    /// The wait before the next tick, given the nanoseconds since the
    /// connector started. The tick count advances only where an interval
    /// is set.
    pub fn tick_wait(&mut self, elapsed_nanos: u128) -> (wait: u128)
        ensures
            wait == spec_tick_wait(
                old(self).args.interval_ms,
                if old(self).exhausted { None } else { Some(old(self).next_iteration) },
                elapsed_nanos,
            ),
            final(self).args == old(self).args,
            old(self).args.interval_ms is None ==> *final(self) == *old(self),
            old(self).args.interval_ms is Some && !old(self).exhausted ==> (if old(self).next_iteration
                == u64::MAX {
                final(self).exhausted
            } else {
                !final(self).exhausted && final(self).next_iteration == old(self).next_iteration + 1
            }),
            old(self).args.interval_ms is Some && old(self).exhausted ==> *final(self) == *old(self),
    {
        let ms = match self.args.interval_ms {
            Some(ms) => ms,
            None => return 0,
        };
        if self.exhausted {
            return 0;
        }
        let i = self.next_iteration;
        if i == u64::MAX {
            self.exhausted = true;
        } else {
            self.next_iteration = i + 1;
        }
        match i.checked_mul(ms) {
            Some(delay_ms) => {
                let delay: u128 = (delay_ms as u128) * 1_000_000;
                if delay > elapsed_nanos {
                    delay - elapsed_nanos
                } else {
                    0
                }
            },
            None => 0,
        }
    }
}

/// A connector without an interval never waits.
pub proof fn lemma_no_interval_no_wait(iteration: Option<u64>, elapsed_nanos: u128)
    ensures
        spec_tick_wait(None, iteration, elapsed_nanos) == 0,
{
}

/// Ticks are paced to the interval: a tick never waits past its slot,
/// and once its slot has passed it does not wait at all.
pub proof fn lemma_wait_reaches_slot(ms: u64, i: u64, elapsed_nanos: u128)
    requires
        i * ms <= u64::MAX,
    ensures
        elapsed_nanos + spec_tick_wait(Some(ms), Some(i), elapsed_nanos) >= (i * ms) * 1_000_000
            || spec_tick_wait(Some(ms), Some(i), elapsed_nanos) == 0,
        (i * ms) * 1_000_000 <= elapsed_nanos ==> spec_tick_wait(Some(ms), Some(i), elapsed_nanos) == 0,
{
}

} // verus!
