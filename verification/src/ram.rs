//! The RAM sampler: its settings, its measurements, and what it reports on a tick.

use crate::common::UpdatePacket;
use vstd::prelude::*;

verus! {

/// Settings of the RAM sampler.
#[derive(Debug)]
pub struct RAMConfig {
    /// Seconds between two ticks of this sampler. Where it is absent the sampler
    /// runs at the agent-wide interval.
    pub update_frequency: Option<i32>,
}

impl Clone for RAMConfig {
    fn clone(&self) -> (copy: Self)
        ensures
            copy == *self,
    {
        Self { update_frequency: self.update_frequency }
    }
}

impl Default for RAMConfig {
    fn default() -> (config: Self)
        ensures
            config.update_frequency is None,
    {
        Self { update_frequency: None }
    }
}

/// One measurement of the RAM sampler, in bytes.
#[derive(Debug)]
pub enum RAMUpdate {
    /// The memory in use.
    Usage(u64),
    /// The memory installed.
    Total(u64),
}

impl<P> From<RAMUpdate> for UpdatePacket<P> {
    fn from(update: RAMUpdate) -> (packet: Self) {
        UpdatePacket::RAM(update)
    }
}

impl<P> vstd::std_specs::convert::FromSpecImpl<RAMUpdate> for UpdatePacket<P> {
    open spec fn obeys_from_spec() -> bool {
        true
    }

    open spec fn from_spec(update: RAMUpdate) -> Self {
        UpdatePacket::RAM(update)
    }
}

/// What the RAM sampler puts on the queue for one tick: the memory in use,
/// then the memory installed.
pub open spec fn ram_reports<P>(used: u64, total: u64) -> Seq<UpdatePacket<P>> {
    seq![UpdatePacket::RAM(RAMUpdate::Usage(used)), UpdatePacket::RAM(RAMUpdate::Total(total))]
}

/// The reports of one tick of the RAM sampler, in the order in which they go
/// onto the queue.
pub fn report_ram<P>(used: u64, total: u64) -> (reports: Vec<UpdatePacket<P>>)
    ensures
        reports@ == ram_reports::<P>(used, total),
{
    let mut reports: Vec<UpdatePacket<P>> = Vec::new();
    reports.push(RAMUpdate::Usage(used).into());
    reports.push(RAMUpdate::Total(total).into());
    reports
}

} // verus!
