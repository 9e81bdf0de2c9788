//! What the samplers and the dispatcher share: the agent's configuration and the
//! envelope in which a measurement travels through the queue.

use crate::cpu::{CPUConfig, CPUUpdate};
use crate::ram::{RAMConfig, RAMUpdate};
use vstd::prelude::*;

verus! {

/// The agent's configuration. It is read once when the agent starts and never
/// changed afterwards; every component works on a copy of its own.
#[derive(Debug)]
pub struct Config {
    /// Seconds between two ticks of a sampler that names no interval of its own.
    pub update_frequency: i32,
    /// Host of the broker.
    pub server_ip: String,
    /// Port of the broker.
    pub server_port: u16,
    /// The name under which the agent connects to the broker; also the second
    /// segment of every topic.
    pub client_name: String,
    /// The first segment of every topic.
    pub base_path: String,
    /// Settings of the CPU sampler.
    pub cpu: CPUConfig,
    /// Settings of the RAM sampler.
    pub ram: RAMConfig,
}

/// A measurement on its way from a sampler to the dispatcher.
#[derive(Debug)]
pub enum UpdatePacket<P> {
    CPU(CPUUpdate<P>),
    RAM(RAMUpdate),
}

/// The interval at which a sampler runs: its own where it names one, else the
/// agent-wide one.
pub open spec fn resolved_interval(own: Option<i32>, global: i32) -> i32 {
    match own {
        Some(secs) => secs,
        None => global,
    }
}

impl Clone for Config {
    fn clone(&self) -> (copy: Self)
        ensures
            copy == *self,
    {
        Config {
            update_frequency: self.update_frequency,
            server_ip: self.server_ip.clone(),
            server_port: self.server_port,
            client_name: self.client_name.clone(),
            base_path: self.base_path.clone(),
            cpu: self.cpu,
            ram: self.ram.clone(),
        }
    }
}

impl Config {
    /// Whether every interval that the configuration names is at least one
    /// second long.
    pub open spec fn valid(&self) -> bool {
        &&& self.update_frequency >= 1
        &&& (self.cpu.update_frequency matches Some(secs) ==> secs >= 1)
        &&& (self.ram.update_frequency matches Some(secs) ==> secs >= 1)
    }

    /// The interval of the CPU sampler, in seconds.
    pub open spec fn spec_cpu_interval(&self) -> i32 {
        resolved_interval(self.cpu.update_frequency, self.update_frequency)
    }

    /// The interval of the RAM sampler, in seconds.
    pub open spec fn spec_ram_interval(&self) -> i32 {
        resolved_interval(self.ram.update_frequency, self.update_frequency)
    }

    /// Tests whether the configuration is valid.
    pub fn is_valid(&self) -> (ok: bool)
        ensures
            ok == self.valid(),
    {
        let cpu_ok = match self.cpu.update_frequency {
            Some(secs) => secs >= 1,
            None => true,
        };
        let ram_ok = match self.ram.update_frequency {
            Some(secs) => secs >= 1,
            None => true,
        };
        self.update_frequency >= 1 && cpu_ok && ram_ok
    }

    /// The interval of the CPU sampler, in seconds. The sampler resolves it once,
    /// when it starts.
    #[verifier::when_used_as_spec(spec_cpu_interval)]
    pub fn cpu_interval(&self) -> (secs: i32)
        ensures
            secs == self.spec_cpu_interval(),
            self.valid() ==> secs >= 1,
    {
        self.cpu.update_frequency.unwrap_or(self.update_frequency)
    }

    /// The interval of the RAM sampler, in seconds. The sampler resolves it once,
    /// when it starts.
    #[verifier::when_used_as_spec(spec_ram_interval)]
    pub fn ram_interval(&self) -> (secs: i32)
        ensures
            secs == self.spec_ram_interval(),
            self.valid() ==> secs >= 1,
    {
        self.ram.update_frequency.unwrap_or(self.update_frequency)
    }
}

/// The period of a sampler's timer for an interval of `interval` seconds. A
/// timer is built for a positive interval only: any other has no period.
pub fn timer_period(interval: i32) -> (period: Option<u64>)
    ensures
        interval >= 1 ==> period == Some(interval as u64),
        interval < 1 ==> period is None,
{
    if interval >= 1 {
        Some(interval as u64)
    } else {
        None
    }
}

/// In a valid configuration each sampler runs at its own interval where it
/// names one and at the agent-wide interval where it names none, and either way
/// at an interval of at least one second, for which a timer can be built.
pub proof fn lemma_intervals_resolved(config: Config)
    requires
        config.valid(),
    ensures
        config.cpu.update_frequency matches Some(secs) ==> config.cpu_interval() == secs,
        config.cpu.update_frequency is None ==> config.cpu_interval() == config.update_frequency,
        config.ram.update_frequency matches Some(secs) ==> config.ram_interval() == secs,
        config.ram.update_frequency is None ==> config.ram_interval() == config.update_frequency,
        config.cpu_interval() >= 1,
        config.ram_interval() >= 1,
{
}

} // verus!
