use telemetry_core::pid::{Pid, PidResponse};
use telemetry_core::scheduler::{PidScheduler, ScheduledPid, SchedulerConfig};
use telemetry_core::sensor::SensorFrame;

#[test]
fn test_scheduler_creation() {
    let scheduler = PidScheduler::new(SchedulerConfig::default(), 0);
    assert_eq!(scheduler.pid_count(), 8);
}

#[test]
fn test_scheduled_pid_ordering() {
    let mut pid1 = ScheduledPid::new(Pid::Rpm, 5_000, 0);
    let mut pid2 = ScheduledPid::new(Pid::Maf, 1_000, 0);

    pid1.next_query_ms = 1_000;
    pid2.next_query_ms = 1_000;

    assert!(pid1 > pid2);
}

#[test]
fn intervals_follow_rates() {
    assert_eq!(ScheduledPid::new(Pid::Rpm, 5_000, 0).interval(), 200);
    assert_eq!(ScheduledPid::new(Pid::Maf, 1_000, 0).interval(), 1000);
    assert_eq!(ScheduledPid::new(Pid::O2Voltage, 500, 0).interval(), 2000);
}

#[test]
fn pop_next_takes_earliest_then_highest_priority() {
    let mut scheduler = PidScheduler::new(SchedulerConfig::default(), 0);
    let first = scheduler.pop_next().unwrap();
    assert_eq!(first.pid, Pid::Rpm);
    let second = scheduler.pop_next().unwrap();
    assert_eq!(second.pid, Pid::Speed);
    assert_eq!(scheduler.pid_count(), 6);
}

fn coolant_reply(byte: u8, t: u64) -> PidResponse {
    PidResponse::decode(0x05, vec![byte], t)
}

#[test]
fn coolant_boost_doubles_rate_and_restores() {
    let mut scheduler = PidScheduler::new(SchedulerConfig::default(), 0);
    let mut frame = SensorFrame::new(0);
    let coolant = ScheduledPid::new(Pid::CoolantTemp, 5_000, 0);

    // 96 °C: boosted to 10 Hz, next query 100 ms later.
    let sent = scheduler.complete_query(coolant, Some(&coolant_reply(136, 1_000)), &mut frame, 1_000);
    assert!(sent);
    assert_eq!(frame.coolant_temp, 96);
    assert_eq!(frame.timestamp_ms, 1_000);
    let mut item = None;
    while let Some(p) = scheduler.pop_next() {
        if p.pid == Pid::CoolantTemp {
            item = Some(p);
        }
    }
    let item = item.unwrap();
    assert_eq!(item.rate_mhz, 10_000);
    assert_eq!(item.next_query_ms, 1_100);

    // 80 °C: back to the base rate.
    scheduler.complete_query(item, Some(&coolant_reply(120, 2_000)), &mut frame, 2_000);
    let back = scheduler.pop_next().unwrap();
    assert_eq!(back.rate_mhz, 5_000);
    assert_eq!(back.next_query_ms, 2_200);
}

#[test]
fn failed_query_counts_and_reschedules() {
    let mut scheduler = PidScheduler::new(SchedulerConfig::default(), 0);
    let mut frame = SensorFrame::new(7);
    let p = scheduler.pop_next().unwrap();
    let sent = scheduler.complete_query(p, None, &mut frame, 500);
    assert!(!sent);
    assert_eq!(frame.timestamp_ms, 7);
    assert_eq!(scheduler.pid_count(), 8);
    let mut found = None;
    while let Some(q) = scheduler.pop_next() {
        if q.pid == Pid::Rpm {
            found = Some(q);
        }
    }
    let q = found.unwrap();
    assert_eq!(q.failures, 1);
    assert_eq!(q.next_query_ms, 700);
}

#[test]
fn rising_coolant_boosts_once_threshold_crossed() {
    let mut scheduler = PidScheduler::new(SchedulerConfig::default(), 0);
    let mut frame = SensorFrame::new(0);
    let mut boosted_at = None;
    for i in 0..600u64 {
        let temp = 80 + (30 * i / 599) as u8;
        let t = i * 200;
        let p = ScheduledPid::new(Pid::CoolantTemp, 5_000, t);
        scheduler.complete_query(p, Some(&coolant_reply(temp + 40, t)), &mut frame, t);
        let mut last = None;
        while let Some(q) = scheduler.pop_next() {
            if q.pid == Pid::CoolantTemp {
                last = Some(q);
            }
        }
        if last.unwrap().rate_mhz == 10_000 && boosted_at.is_none() {
            boosted_at = Some(temp);
        }
    }
    assert_eq!(boosted_at, Some(95));
}

#[test]
fn boost_priority_changes_only_that_pid() {
    let mut scheduler = PidScheduler::new(SchedulerConfig::default(), 0);
    scheduler.boost_priority(Pid::Maf, 4_000);
    let mut rates = Vec::new();
    while let Some(q) = scheduler.pop_next() {
        rates.push((q.pid, q.rate_mhz));
    }
    assert!(rates.contains(&(Pid::Maf, 4_000)));
    assert!(rates.contains(&(Pid::Rpm, 5_000)));
    assert!(rates.contains(&(Pid::O2Voltage, 500)));
}

#[test]
fn start_and_stop() {
    let mut scheduler = PidScheduler::new(SchedulerConfig::default(), 0);
    assert!(!scheduler.is_running());
    scheduler.start();
    assert!(scheduler.is_running());
    scheduler.stop();
    assert!(!scheduler.is_running());
}

#[test]
fn fair_share_over_ten_seconds_without_latency() {
    let mut scheduler = PidScheduler::new(SchedulerConfig::default(), 0);
    let mut frame = SensorFrame::new(0);
    let mut counts = std::collections::HashMap::new();
    loop {
        let p = scheduler.pop_next().unwrap();
        if p.next_query_ms >= 10_000 {
            break;
        }
        *counts.entry(p.pid).or_insert(0u32) += 1;
        let t = p.next_query_ms;
        let reply = PidResponse::decode(p.pid.as_hex(), vec![0x50, 0x10], t);
        scheduler.complete_query(p, Some(&reply), &mut frame, t);
    }
    assert_eq!(counts[&Pid::Rpm], 50);
    assert_eq!(counts[&Pid::CoolantTemp], 50);
    assert_eq!(counts[&Pid::Maf], 10);
    assert_eq!(counts[&Pid::ShortFuelTrim], 5);
    assert_eq!(counts[&Pid::O2Voltage], 5);
}
