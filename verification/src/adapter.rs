//! Powering on the adapter: how long to wait after a failed attempt, and
//! when to give up. The delays come from a constant backoff of the `backon`
//! crate.

use vstd::prelude::*;

verus! {

/// How often powering on the adapter is tried again before giving up.
pub const POWER_ON_RETRIES: usize = 10;

/// The seconds between two attempts to power on the adapter.
pub const POWER_ON_DELAY_SECS: u64 = 1;

/// The most delays that a schedule is ever asked to hold.
pub const MAX_SCHEDULE_LEN: usize = 0x1_0000;

/// Builds a backoff with `backon::ConstantBuilder` (`new`, `with_delay`,
/// `with_max_times`, `build`) and hands out all its delays, in whole seconds.
/// A constant backoff without jitter yields the delay it was built with, as
/// often as it was built for, and then ends.
#[verifier::external_body]
fn constant_delays(delay_secs: u64, max_times: usize) -> (delays: Vec<u64>)
    requires
        max_times <= MAX_SCHEDULE_LEN,
    ensures
        delays@ == Seq::new(max_times as nat, |i: int| delay_secs),
{
    let builder = backon::ConstantBuilder::new()
        .with_delay(std::time::Duration::from_secs(delay_secs))
        .with_max_times(max_times);
    backon::BackoffBuilder::build(builder).map(|delay| delay.as_secs()).collect()
}

/// The delays before the retries of a power-on, in seconds: the same delay
/// for each of the retries that are allowed.
pub open spec fn power_on_schedule() -> Seq<u64> {
    Seq::new(POWER_ON_RETRIES as nat, |i: int| POWER_ON_DELAY_SECS)
}

/// The retries that a power-on of the adapter has left.
pub struct PowerOn {
    delays: Vec<u64>,
    used: usize,
}

impl View for PowerOn {
    type V = Seq<u64>;

    /// The delays, in seconds, before each retry that is still allowed.
    closed spec fn view(&self) -> Seq<u64> {
        self.delays@.skip(self.used as int)
    }
}

impl PowerOn {
    /// No more retries are used than there are.
    #[verifier::type_invariant]
    spec fn within_schedule(self) -> bool {
        self.used <= self.delays.len()
    }

    /// A power-on that has failed not once yet.
    pub fn new() -> (power_on: PowerOn)
        ensures
            power_on@ == power_on_schedule(),
    {
        let power_on = PowerOn {
            delays: constant_delays(POWER_ON_DELAY_SECS, POWER_ON_RETRIES),
            used: 0,
        };
        assert(power_on@ =~= power_on_schedule());
        power_on
    }

    /// Decides what follows a failed attempt: the seconds to wait before the
    /// next one, or nothing once every retry has been used, in which case the
    /// power-on has failed for good.
    pub fn on_failure(&mut self) -> (wait_secs: Option<u64>)
        ensures
            wait_secs == if old(self)@.len() > 0 {
                Some(old(self)@[0])
            } else {
                None
            },
            final(self)@ == if old(self)@.len() > 0 {
                old(self)@.drop_first()
            } else {
                old(self)@
            },
    {
        proof {
            use_type_invariant(&*self);
        }
        if self.used < self.delays.len() {
            let wait_secs = self.delays[self.used];
            self.used = self.used + 1;
            assert(self@ =~= old(self)@.drop_first());
            Some(wait_secs)
        } else {
            None
        }
    }
}

/// A power-on that has failed `failures` times has that many retries fewer
/// than the schedule allows, each still with the same delay: so it waits
/// after each of the first failures that the schedule has retries for, and
/// gives up on the one after.
pub proof fn lemma_power_on_gives_up_after_all_retries(failures: nat)
    requires
        failures <= POWER_ON_RETRIES,
    ensures
        power_on_schedule().skip(failures as int).len() == POWER_ON_RETRIES - failures,
        forall|i: int|
            0 <= i < POWER_ON_RETRIES - failures ==> #[trigger] power_on_schedule().skip(
                failures as int,
            )[i] == POWER_ON_DELAY_SECS,
        failures < POWER_ON_RETRIES ==> power_on_schedule().skip(failures as int).drop_first()
            == power_on_schedule().skip(failures as int + 1),
{
    if failures < POWER_ON_RETRIES {
        assert(power_on_schedule().skip(failures as int).drop_first() =~= power_on_schedule().skip(
            failures as int + 1,
        ));
    }
}

} // verus!
