use telemetry_agent::common::UpdatePacket;
use telemetry_agent::cpu::{report_cpu, CPUUpdate};
use telemetry_agent::queue::QUEUE_CAPACITY;
use telemetry_agent::ram::{report_ram, RAMUpdate};

const CORES: usize = 8;
const CPU_TICKS: usize = 40;
const RAM_TICKS: u64 = 100;

fn run_both_samplers(capacity: usize) -> Vec<UpdatePacket<f32>> {
    let runtime = tokio::runtime::Builder::new_current_thread().build().unwrap();
    runtime.block_on(async {
        let (sender, mut receiver) = tokio::sync::mpsc::channel::<UpdatePacket<f32>>(capacity);

        let cpu_sender = sender.clone();
        tokio::spawn(async move {
            for tick in 0..CPU_TICKS {
                let usages: Vec<f32> = (0..CORES).map(|core| (tick * CORES + core) as f32).collect();
                for report in report_cpu(&usages, 0f32, |sum, usage| sum + usage, |_, _| tick as f32) {
                    cpu_sender.send(report).await.unwrap();
                    tokio::task::yield_now().await;
                }
            }
        });

        let ram_sender = sender.clone();
        tokio::spawn(async move {
            for tick in 0..RAM_TICKS {
                for report in report_ram(2 * tick, 2 * tick + 1) {
                    ram_sender.send(report).await.unwrap();
                }
                tokio::task::yield_now().await;
            }
        });

        drop(sender);
        let mut taken = Vec::new();
        while let Some(report) = receiver.recv().await {
            taken.push(report);
        }
        taken
    })
}

fn check_order_of_each_sampler(taken: Vec<UpdatePacket<f32>>) {
    let mut from_cpu = Vec::new();
    let mut from_ram = Vec::new();
    let mut changes = 0;
    let mut last_was_cpu = None;
    for report in taken {
        let is_cpu = matches!(report, UpdatePacket::CPU(_));
        if last_was_cpu.is_some() && last_was_cpu != Some(is_cpu) {
            changes += 1;
        }
        last_was_cpu = Some(is_cpu);
        match report {
            UpdatePacket::CPU(update) => from_cpu.push(update),
            UpdatePacket::RAM(update) => from_ram.push(update),
        }
    }
    assert!(changes > 2, "the two samplers did not interleave");

    assert_eq!(from_cpu.len(), CPU_TICKS * (CORES + 1));
    for tick in 0..CPU_TICKS {
        let burst = &from_cpu[tick * (CORES + 1)..(tick + 1) * (CORES + 1)];
        for core in 0..CORES {
            let expected = (tick * CORES + core) as f32;
            assert!(matches!(burst[core], CPUUpdate::Core(c, v) if c == core && v == expected));
        }
        assert!(matches!(burst[CORES], CPUUpdate::Average(v) if v == tick as f32));
    }

    assert_eq!(from_ram.len(), 2 * RAM_TICKS as usize);
    for tick in 0..RAM_TICKS {
        let burst = &from_ram[2 * tick as usize..2 * tick as usize + 2];
        assert!(matches!(burst[0], RAMUpdate::Usage(v) if v == 2 * tick));
        assert!(matches!(burst[1], RAMUpdate::Total(v) if v == 2 * tick + 1));
    }
}

#[test]
fn queue_keeps_the_order_of_each_sampler() {
    check_order_of_each_sampler(run_both_samplers(QUEUE_CAPACITY));
}

#[test]
fn queue_keeps_the_order_of_each_sampler_when_they_have_to_wait() {
    check_order_of_each_sampler(run_both_samplers(1));
    check_order_of_each_sampler(run_both_samplers(3));
}
