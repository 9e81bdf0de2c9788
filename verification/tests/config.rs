use telemetry_agent::common::{timer_period, Config};
use telemetry_agent::cpu::CPUConfig;
use telemetry_agent::ram::RAMConfig;

fn config(global: i32, cpu: Option<i32>, ram: Option<i32>) -> Config {
    Config {
        update_frequency: global,
        server_ip: String::from("127.0.0.1"),
        server_port: 1883,
        client_name: String::from("agentA"),
        base_path: String::from("metrics"),
        cpu: CPUConfig { update_frequency: cpu },
        ram: RAMConfig { update_frequency: ram },
    }
}

#[test]
fn sampler_without_interval_runs_at_the_global_one() {
    let c = config(5, None, None);
    assert_eq!(c.cpu_interval(), 5);
    assert_eq!(c.ram_interval(), 5);
}

#[test]
fn sampler_with_interval_runs_at_its_own() {
    let c = config(5, Some(7), Some(2));
    assert_eq!(c.cpu_interval(), 7);
    assert_eq!(c.ram_interval(), 2);
}

#[test]
fn one_override_leaves_the_other_sampler_alone() {
    let c = config(5, None, Some(2));
    assert_eq!(c.cpu_interval(), 5);
    assert_eq!(c.ram_interval(), 2);
    let c = config(9, Some(1), None);
    assert_eq!(c.cpu_interval(), 1);
    assert_eq!(c.ram_interval(), 9);
}

#[test]
fn valid_configuration_has_positive_intervals() {
    for (global, cpu, ram) in [(1, None, None), (5, Some(1), Some(3)), (i32::MAX, None, Some(i32::MAX))] {
        let c = config(global, cpu, ram);
        assert!(c.is_valid());
        assert!(c.cpu_interval() >= 1);
        assert!(c.ram_interval() >= 1);
        assert_eq!(timer_period(c.cpu_interval()), Some(c.cpu_interval() as u64));
        assert_eq!(timer_period(c.ram_interval()), Some(c.ram_interval() as u64));
    }
}

#[test]
fn configuration_with_an_interval_below_one_is_not_valid() {
    assert!(!config(0, None, None).is_valid());
    assert!(!config(-1, Some(1), Some(1)).is_valid());
    assert!(!config(5, Some(0), None).is_valid());
    assert!(!config(5, None, Some(-3)).is_valid());
    assert!(!config(0, Some(1), Some(1)).is_valid());
}

#[test]
fn override_is_taken_as_it_stands() {
    let c = config(5, Some(0), Some(-4));
    assert_eq!(c.cpu_interval(), 0);
    assert_eq!(c.ram_interval(), -4);
}

#[test]
fn timer_has_a_period_for_positive_intervals_only() {
    assert_eq!(timer_period(1), Some(1));
    assert_eq!(timer_period(5), Some(5));
    assert_eq!(timer_period(i32::MAX), Some(2147483647));
    assert_eq!(timer_period(0), None);
    assert_eq!(timer_period(-1), None);
    assert_eq!(timer_period(i32::MIN), None);
}

#[test]
fn sampler_settings_default_to_no_interval() {
    assert_eq!(CPUConfig::default().update_frequency, None);
    assert_eq!(RAMConfig::default().update_frequency, None);
}

#[test]
fn copy_of_a_configuration_holds_the_same_values() {
    let c = config(5, None, Some(2));
    let d = c.clone();
    assert_eq!(d.update_frequency, 5);
    assert_eq!(d.server_ip, "127.0.0.1");
    assert_eq!(d.server_port, 1883);
    assert_eq!(d.client_name, "agentA");
    assert_eq!(d.base_path, "metrics");
    assert_eq!(d.cpu.update_frequency, None);
    assert_eq!(d.ram.update_frequency, Some(2));
    assert_eq!(c.ram.clone().update_frequency, Some(2));
}

#[test]
fn every_valid_configuration_resolves_both_intervals() {
    let choices = [None, Some(1), Some(2), Some(30), Some(i32::MAX)];
    for global in [1, 2, 5, 3600, i32::MAX] {
        for cpu in choices {
            for ram in choices {
                let c = config(global, cpu, ram);
                assert!(c.is_valid());
                assert_eq!(c.cpu_interval(), cpu.unwrap_or(global));
                assert_eq!(c.ram_interval(), ram.unwrap_or(global));
                assert!(c.cpu_interval() >= 1 && c.ram_interval() >= 1);
                assert!(timer_period(c.cpu_interval()).is_some());
                assert!(timer_period(c.ram_interval()).is_some());
            }
        }
    }
}
