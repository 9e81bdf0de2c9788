//! The queue between the samplers and the dispatcher: how much it holds, and in
//! which order the reports of one sampler leave it.
//!
//! The queue is a channel that hands out what was put in, first in, first out.
//! Both samplers put their reports in while the dispatcher takes reports out,
//! so what the dispatcher takes is some interleaving of what the two samplers
//! put in. What this module proves, it proves of such interleavings.

use crate::common::UpdatePacket;
use crate::cpu::cpu_reports;
use crate::ram::ram_reports;
use vstd::prelude::*;

verus! {

/// How many reports the queue holds before a sampler has to wait for the
/// dispatcher.
pub const QUEUE_CAPACITY: usize = 128;

/// Whether `merged` is an interleaving of `left` and `right`: it holds the
/// items of both, those of `left` in the order of `left` and those of `right`
/// in the order of `right`.
pub open spec fn is_interleaving<T>(merged: Seq<T>, left: Seq<T>, right: Seq<T>) -> bool
    decreases merged.len(),
{
    if merged.len() == 0 {
        left.len() == 0 && right.len() == 0
    } else {
        ||| (left.len() > 0 && merged.last() == left.last() && is_interleaving(
            merged.drop_last(),
            left.drop_last(),
            right,
        ))
        ||| (right.len() > 0 && merged.last() == right.last() && is_interleaving(
            merged.drop_last(),
            left,
            right.drop_last(),
        ))
    }
}

/// Whether a report comes from the CPU sampler.
pub open spec fn is_from_cpu<P>(report: UpdatePacket<P>) -> bool {
    report is CPU
}

/// Whether a report comes from the RAM sampler.
pub open spec fn is_from_ram<P>(report: UpdatePacket<P>) -> bool {
    report is RAM
}

/// On a machine with at most `QUEUE_CAPACITY - 4` cores, what both samplers
/// report on one tick each is less than the queue holds.
pub proof fn lemma_queue_holds_a_tick_of_each<P>(
    usages: Seq<P>,
    average: P,
    used: u64,
    total: u64,
)
    requires
        usages.len() + 4 <= QUEUE_CAPACITY,
    ensures
        cpu_reports(usages, average).len() + ram_reports::<P>(used, total).len() < QUEUE_CAPACITY,
{
}

/// However the reports of the two samplers interleave on their way to the
/// dispatcher, the reports of each sampler arrive in the order in which that
/// sampler sent them: picking out of what the dispatcher takes the reports of
/// one sampler gives exactly what that sampler put in.
pub proof fn lemma_each_sampler_keeps_its_order<P>(
    taken: Seq<UpdatePacket<P>>,
    from_cpu: Seq<UpdatePacket<P>>,
    from_ram: Seq<UpdatePacket<P>>,
)
    requires
        is_interleaving(taken, from_cpu, from_ram),
        forall|i: int| 0 <= i < from_cpu.len() ==> is_from_cpu(#[trigger] from_cpu[i]),
        forall|i: int| 0 <= i < from_ram.len() ==> is_from_ram(#[trigger] from_ram[i]),
    ensures
        taken.filter(|report: UpdatePacket<P>| is_from_cpu(report)) == from_cpu,
        taken.filter(|report: UpdatePacket<P>| is_from_ram(report)) == from_ram,
    decreases taken.len(),
{
    reveal(Seq::filter);
    let cpu_only = |report: UpdatePacket<P>| is_from_cpu(report);
    let ram_only = |report: UpdatePacket<P>| is_from_ram(report);
    if taken.len() == 0 {
        assert(taken.filter(cpu_only) =~= from_cpu);
        assert(taken.filter(ram_only) =~= from_ram);
    } else if from_cpu.len() > 0 && taken.last() == from_cpu.last() && is_interleaving(
        taken.drop_last(),
        from_cpu.drop_last(),
        from_ram,
    ) {
        lemma_each_sampler_keeps_its_order(taken.drop_last(), from_cpu.drop_last(), from_ram);
        assert(is_from_cpu(from_cpu[from_cpu.len() - 1]));
        assert(from_cpu.drop_last().push(from_cpu.last()) =~= from_cpu);
    } else {
        lemma_each_sampler_keeps_its_order(taken.drop_last(), from_cpu, from_ram.drop_last());
        assert(is_from_ram(from_ram[from_ram.len() - 1]));
        assert(from_ram.drop_last().push(from_ram.last()) =~= from_ram);
    }
}

} // verus!
