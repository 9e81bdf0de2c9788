//! The CPU sampler: its settings, its measurements, and what it reports on a tick.

use crate::common::UpdatePacket;
use vstd::prelude::*;

verus! {

/// Settings of the CPU sampler.
#[derive(Debug, Clone, Copy)]
pub struct CPUConfig {
    /// Seconds between two ticks of this sampler. Where it is absent the sampler
    /// runs at the agent-wide interval.
    pub update_frequency: Option<i32>,
}

impl Default for CPUConfig {
    fn default() -> (config: Self)
        ensures
            config.update_frequency is None,
    {
        Self { update_frequency: None }
    }
}

/// One measurement of the CPU sampler. `P` is the type of a utilisation
/// reading, a percentage; the agent passes readings on and never looks into one.
#[derive(Debug)]
pub enum CPUUpdate<P> {
    /// The utilisation averaged over all cores.
    Average(P),
    /// The utilisation of the core with the given index.
    Core(usize, P),
}

impl<P> From<CPUUpdate<P>> for UpdatePacket<P> {
    fn from(update: CPUUpdate<P>) -> (packet: Self) {
        UpdatePacket::CPU(update)
    }
}

impl<P> vstd::std_specs::convert::FromSpecImpl<CPUUpdate<P>> for UpdatePacket<P> {
    open spec fn obeys_from_spec() -> bool {
        true
    }

    open spec fn from_spec(update: CPUUpdate<P>) -> Self {
        UpdatePacket::CPU(update)
    }
}

/// What the CPU sampler puts on the queue for one tick on which the cores
/// reported `usages` and their average was `average`: one report per core, in
/// ascending order of the core's index, and after them the average.
pub open spec fn cpu_reports<P>(usages: Seq<P>, average: P) -> Seq<UpdatePacket<P>> {
    Seq::new(usages.len(), |core: int| UpdatePacket::CPU(CPUUpdate::Core(core as usize, usages[core])))
        .push(UpdatePacket::CPU(CPUUpdate::Average(average)))
}

/// Whether `sums` are the running sums of `readings`: `sums[0]` is `zero`, and
/// every further one is what `plus` made of the one before it and the next
/// reading. So every reading is added exactly once, in the order of the
/// sequence, and the last of `sums` is the sum of them all.
pub open spec fn is_running_sum<P, A: Fn(P, P) -> P>(
    plus: A,
    zero: P,
    readings: Seq<P>,
    sums: Seq<P>,
) -> bool {
    &&& sums.len() == readings.len() + 1
    &&& sums[0] == zero
    &&& forall|i: int|
        0 < i <= readings.len() ==> call_ensures(
            plus,
            (sums[i - 1], readings[i - 1]),
            #[trigger] sums[i],
        )
}

/// Whether `average` is the mean of `readings`: what `mean` makes of their sum
/// and their number.
pub open spec fn is_mean_of<P, A: Fn(P, P) -> P, M: Fn(P, usize) -> P>(
    plus: A,
    mean: M,
    zero: P,
    readings: Seq<P>,
    average: P,
) -> bool {
    exists|sums: Seq<P>|
        #[trigger] is_running_sum(plus, zero, readings, sums) && call_ensures(
            mean,
            (sums.last(), readings.len() as usize),
            average,
        )
}

/// The reports of one tick of the CPU sampler, in the order in which they go
/// onto the queue: for every core its reading, in ascending order of the cores'
/// indices, and after them the mean of the readings.
///
/// `usages[i]` is the reading of core `i`. The arithmetic of readings is the
/// caller's: `plus` adds a reading to a sum that starts at `zero`, and `mean`
/// divides the sum by the number of cores. The mean is reported on every tick,
/// also on one on which no core reported: it is then `mean(zero, 0)`.
pub fn report_cpu<P: Copy, A: Fn(P, P) -> P, M: Fn(P, usize) -> P>(
    usages: &Vec<P>,
    zero: P,
    plus: A,
    mean: M,
) -> (reports: Vec<UpdatePacket<P>>)
    requires
        forall|sum: P, usage: P| call_requires(plus, (sum, usage)),
        forall|sum: P, count: usize| call_requires(mean, (sum, count)),
    ensures
        exists|average: P|
            #[trigger] is_mean_of(plus, mean, zero, usages@, average) && reports@ == cpu_reports(
                usages@,
                average,
            ),
{
    let mut reports: Vec<UpdatePacket<P>> = Vec::new();
    let mut sum = zero;
    let mut sums: Ghost<Seq<P>> = Ghost(Seq::empty().push(zero));
    let mut core: usize = 0;
    while core < usages.len()
        invariant
            core <= usages.len(),
            forall|sum: P, usage: P| call_requires(plus, (sum, usage)),
            reports@ == Seq::new(
                core as nat,
                |c: int| UpdatePacket::CPU(CPUUpdate::Core(c as usize, usages@[c])),
            ),
            is_running_sum(plus, zero, usages@.take(core as int), sums@),
            sums@.last() == sum,
        decreases usages.len() - core,
    {
        let usage = usages[core];
        sum = plus(sum, usage);
        proof {
            sums@ = sums@.push(sum);
        }
        reports.push(CPUUpdate::Core(core, usage).into());
        core += 1;
    }
    assert(usages@.take(core as int) =~= usages@);
    let average = mean(sum, core);
    reports.push(CPUUpdate::Average(average).into());
    assert(is_mean_of(plus, mean, zero, usages@, average));
    reports
}

} // verus!
