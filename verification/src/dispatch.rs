//! The dispatcher: the single consumer of the queue. For every measurement that
//! it takes from the queue it decides under which topic and with which payload
//! the measurement goes to the broker.

use crate::common::{Config, UpdatePacket};
use crate::cpu::{cpu_reports, CPUUpdate};
use crate::decimal::{decimal, decimal_text, lemma_decimal_text_injective};
use crate::ram::{ram_reports, RAMUpdate};
use vstd::prelude::*;
use vstd::string::to_string_from_display_ensures;
use vstd::string::StringExecFns;

verus! {

/// What a measurement is about. The topic of a measurement depends on this and
/// on nothing else in the measurement.
#[derive(Debug, Clone, Copy, PartialEq, Eq, Structural)]
pub enum Metric {
    /// The utilisation averaged over all cores.
    CpuAverage,
    /// The utilisation of the core with the given index.
    CpuCore(usize),
    /// The memory in use.
    RamUsage,
    /// The memory installed.
    RamTotal,
}

/// The delivery guarantee that a publication asks of the broker.
#[derive(Debug, Clone, Copy, PartialEq, Eq, Structural)]
pub enum QoS {
    AtMostOnce,
    AtLeastOnce,
    ExactlyOnce,
}

/// One message for the broker.
#[derive(Debug)]
pub struct Publication {
    pub topic: String,
    pub payload: String,
    pub qos: QoS,
    pub retain: bool,
}

/// How the agent connects to the broker. The dispatcher alone holds the
/// connection; no sampler ever touches it.
#[derive(Debug)]
pub struct Connection {
    /// Host of the broker.
    pub host: String,
    /// Port of the broker.
    pub port: u16,
    /// The identity under which the agent connects.
    pub client_id: String,
    /// Whether the broker is to forget what it kept for this identity.
    pub clean_session: bool,
}

/// How many publications may wait between the dispatcher and the connection
/// before the dispatcher has to wait.
pub const REQUEST_CAPACITY: usize = 64;

/// What the dispatcher's loop was woken by.
#[derive(Debug)]
pub enum Event<P> {
    /// The connection to the broker had something to tell.
    BrokerNotification,
    /// The queue gave its next measurement, or none because it is closed: every
    /// sampler is gone.
    Received(Option<UpdatePacket<P>>),
}

/// What the dispatcher's loop does next.
#[derive(Debug)]
pub enum Action {
    /// Nothing goes to the broker; the loop waits for the next event.
    Continue,
    /// The publication goes to the broker, then the loop waits for the next event.
    Publish(Publication),
    /// The agent cannot go on and stops.
    Abort,
}

impl<P> UpdatePacket<P> {
    /// What the measurement is about.
    pub open spec fn spec_metric(&self) -> Metric {
        match *self {
            UpdatePacket::CPU(CPUUpdate::Average(_)) => Metric::CpuAverage,
            UpdatePacket::CPU(CPUUpdate::Core(core, _)) => Metric::CpuCore(core),
            UpdatePacket::RAM(RAMUpdate::Usage(_)) => Metric::RamUsage,
            UpdatePacket::RAM(RAMUpdate::Total(_)) => Metric::RamTotal,
        }
    }

    /// What the measurement is about.
    #[verifier::when_used_as_spec(spec_metric)]
    pub fn metric(&self) -> (metric: Metric)
        ensures
            metric == self.spec_metric(),
    {
        match self {
            UpdatePacket::CPU(CPUUpdate::Average(_)) => Metric::CpuAverage,
            UpdatePacket::CPU(CPUUpdate::Core(core, _)) => Metric::CpuCore(*core),
            UpdatePacket::RAM(RAMUpdate::Usage(_)) => Metric::RamUsage,
            UpdatePacket::RAM(RAMUpdate::Total(_)) => Metric::RamTotal,
        }
    }
}

/// The prefix that all topics of one agent share: the base path, a slash, the
/// client's name.
pub open spec fn topic_path(base_path: Seq<char>, client_name: Seq<char>) -> Seq<char> {
    base_path + "/"@ + client_name
}

/// What follows the shared prefix in the topic of a measurement of `metric`.
pub open spec fn topic_suffix(metric: Metric) -> Seq<char> {
    match metric {
        Metric::CpuAverage => "/cpu/average"@,
        Metric::CpuCore(core) => "/cpu/core/"@ + decimal_text(core as nat),
        Metric::RamUsage => "/ram/usage"@,
        Metric::RamTotal => "/ram/total"@,
    }
}

/// The topic under which a measurement of `metric` is published by the agent
/// named `client_name` below `base_path`.
pub open spec fn topic(base_path: Seq<char>, client_name: Seq<char>, metric: Metric) -> Seq<char> {
    topic_path(base_path, client_name) + topic_suffix(metric)
}

/// Whether `payload` is the text that stands for the value of `message`: for a
/// byte count its decimal numeral, for a utilisation reading the text in which
/// the reading displays itself.
pub open spec fn is_payload_of<P: std::fmt::Display>(
    message: UpdatePacket<P>,
    payload: String,
) -> bool {
    match message {
        UpdatePacket::CPU(CPUUpdate::Average(value)) => to_string_from_display_ensures::<P>(
            &value,
            payload,
        ),
        UpdatePacket::CPU(CPUUpdate::Core(_, value)) => to_string_from_display_ensures::<P>(
            &value,
            payload,
        ),
        UpdatePacket::RAM(RAMUpdate::Usage(value)) => payload@ == decimal_text(value as nat),
        UpdatePacket::RAM(RAMUpdate::Total(value)) => payload@ == decimal_text(value as nat),
    }
}

/// Whether `publication` is what the agent configured by `config` sends to the
/// broker for `message`: the topic of the measurement, its value as the payload,
/// delivered at most once and not retained.
pub open spec fn is_publication_of<P: std::fmt::Display>(
    config: Config,
    message: UpdatePacket<P>,
    publication: Publication,
) -> bool {
    &&& publication.topic@ == topic(config.base_path@, config.client_name@, message.metric())
    &&& is_payload_of(message, publication.payload)
    &&& publication.qos == QoS::AtMostOnce
    &&& !publication.retain
}

/// The connection that the agent configured by `config` makes: to the
/// configured host and port, under the client's name, with a clean session.
pub fn connection(config: &Config) -> (connection: Connection)
    ensures
        connection.host@ == config.server_ip@,
        connection.port == config.server_port,
        connection.client_id@ == config.client_name@,
        connection.clean_session,
{
    Connection {
        host: config.server_ip.clone(),
        port: config.server_port,
        client_id: config.client_name.clone(),
        clean_session: true,
    }
}

/// The topic under which the agent publishes a measurement of `metric`.
pub fn topic_for(config: &Config, metric: Metric) -> (text: String)
    ensures
        text@ == topic(config.base_path@, config.client_name@, metric),
{
    let mut text = config.base_path.clone();
    text.append("/");
    text.append(config.client_name.as_str());
    match metric {
        Metric::CpuAverage => {
            text.append("/cpu/average");
        },
        Metric::CpuCore(core) => {
            text.append("/cpu/core/");
            let index = decimal(core as u64);
            text.append(index.as_str());
        },
        Metric::RamUsage => {
            text.append("/ram/usage");
        },
        Metric::RamTotal => {
            text.append("/ram/total");
        },
    }
    text
}

/// What goes to the broker for one measurement taken from the queue.
pub fn handle_message<P: std::fmt::Display>(
    config: &Config,
    message: UpdatePacket<P>,
) -> (publication: Publication)
    ensures
        is_publication_of(*config, message, publication),
{
    let topic = topic_for(config, message.metric());
    let payload = match message {
        UpdatePacket::CPU(CPUUpdate::Average(value)) => value.to_string(),
        UpdatePacket::CPU(CPUUpdate::Core(_, value)) => value.to_string(),
        UpdatePacket::RAM(RAMUpdate::Usage(value)) => decimal(value),
        UpdatePacket::RAM(RAMUpdate::Total(value)) => decimal(value),
    };
    Publication { topic, payload, qos: QoS::AtMostOnce, retain: false }
}

/// One step of the dispatcher's loop: what to do about the event that woke it.
///
/// A notification of the broker's connection sends nothing. A measurement is
/// published. A closed queue means that the samplers are gone, and the agent
/// stops rather than run on without them.
pub fn dispatch<P: std::fmt::Display>(config: &Config, event: Event<P>) -> (action: Action)
    ensures
        match event {
            Event::BrokerNotification => action is Continue,
            Event::Received(None) => action is Abort,
            Event::Received(Some(message)) => action matches Action::Publish(publication)
                && is_publication_of(*config, message, publication),
        },
{
    match event {
        Event::BrokerNotification => Action::Continue,
        Event::Received(None) => Action::Abort,
        Event::Received(Some(message)) => Action::Publish(handle_message(config, message)),
    }
}

/// The topic of a publication is a function of the base path, the client's name
/// and what the measurement is about: neither the measured value nor anything
/// else in the configuration has a part in it.
pub proof fn lemma_topic_depends_on_metric_alone<P: std::fmt::Display, Q: std::fmt::Display>(
    first_config: Config,
    first_message: UpdatePacket<P>,
    first: Publication,
    second_config: Config,
    second_message: UpdatePacket<Q>,
    second: Publication,
)
    requires
        is_publication_of(first_config, first_message, first),
        is_publication_of(second_config, second_message, second),
        first_config.base_path@ == second_config.base_path@,
        first_config.client_name@ == second_config.client_name@,
        first_message.metric() == second_message.metric(),
    ensures
        first.topic@ == second.topic@,
{
}

/// The reports of one tick of the CPU sampler, taken from the queue in the
/// order in which they went in, reach the broker as one message per core, in
/// ascending order of the cores' indices, each under the topic of its core and
/// with the reading of that core, and after them exactly one message under the
/// topic of the average, with the average.
pub proof fn lemma_cpu_tick_publications<P>(
    base_path: Seq<char>,
    client_name: Seq<char>,
    usages: Seq<P>,
    average: P,
)
    requires
        usages.len() <= usize::MAX,
    ensures
        cpu_reports(usages, average).len() == usages.len() + 1,
        forall|core: int|
            0 <= core < usages.len() ==> {
                &&& #[trigger] cpu_reports(usages, average)[core] == UpdatePacket::CPU(
                    CPUUpdate::Core(core as usize, usages[core]),
                )
                &&& topic(base_path, client_name, cpu_reports(usages, average)[core].metric())
                    == topic_path(base_path, client_name) + "/cpu/core/"@ + decimal_text(
                    core as nat,
                )
            },
        cpu_reports(usages, average)[usages.len() as int] == UpdatePacket::CPU(
            CPUUpdate::Average(average),
        ),
        topic(base_path, client_name, cpu_reports(usages, average)[usages.len() as int].metric())
            == topic_path(base_path, client_name) + "/cpu/average"@,
{
}

/// The reports of one tick of the RAM sampler, taken from the queue in the
/// order in which they went in, reach the broker as exactly two messages: the
/// memory in use under the topic of the usage, then the memory installed under
/// the topic of the total.
pub proof fn lemma_ram_tick_publications<P>(
    base_path: Seq<char>,
    client_name: Seq<char>,
    used: u64,
    total: u64,
)
    ensures
        ram_reports::<P>(used, total).len() == 2,
        ram_reports::<P>(used, total)[0] == UpdatePacket::<P>::RAM(RAMUpdate::Usage(used)),
        ram_reports::<P>(used, total)[1] == UpdatePacket::<P>::RAM(RAMUpdate::Total(total)),
        topic(base_path, client_name, ram_reports::<P>(used, total)[0].metric()) == topic_path(
            base_path,
            client_name,
        ) + "/ram/usage"@,
        topic(base_path, client_name, ram_reports::<P>(used, total)[1].metric()) == topic_path(
            base_path,
            client_name,
        ) + "/ram/total"@,
{
}

/// What follows the shared prefix differs between any two metrics.
proof fn lemma_topic_suffixes_differ(first: Metric, second: Metric)
    requires
        first != second,
    ensures
        topic_suffix(first) != topic_suffix(second),
{
    reveal_strlit("/cpu/average");
    reveal_strlit("/cpu/core/");
    reveal_strlit("/ram/usage");
    reveal_strlit("/ram/total");
    let first_suffix = topic_suffix(first);
    let second_suffix = topic_suffix(second);
    match (first, second) {
        (Metric::CpuCore(a), Metric::CpuCore(b)) => {
            if first_suffix == second_suffix {
                assert(decimal_text(a as nat) =~= first_suffix.subrange(
                    10,
                    first_suffix.len() as int,
                ));
                assert(decimal_text(b as nat) =~= second_suffix.subrange(
                    10,
                    second_suffix.len() as int,
                ));
                lemma_decimal_text_injective(a as nat, b as nat);
            }
        },
        _ => {
            assert(first_suffix[1] != second_suffix[1] || first_suffix[5] != second_suffix[5]);
        },
    }
}

/// No two metrics of one agent share a topic: the broker's subscribers can
/// tell every core, the average, the memory in use and the memory installed
/// apart by the topic alone.
pub proof fn lemma_topics_differ(
    base_path: Seq<char>,
    client_name: Seq<char>,
    first: Metric,
    second: Metric,
)
    requires
        first != second,
    ensures
        topic(base_path, client_name, first) != topic(base_path, client_name, second),
{
    lemma_topic_suffixes_differ(first, second);
    let path = topic_path(base_path, client_name);
    let first_topic = topic(base_path, client_name, first);
    let second_topic = topic(base_path, client_name, second);
    assert(topic_suffix(first) =~= first_topic.subrange(
        path.len() as int,
        first_topic.len() as int,
    ));
    assert(topic_suffix(second) =~= second_topic.subrange(
        path.len() as int,
        second_topic.len() as int,
    ));
}

} // verus!
