use md_hardware::telemetry::FULL_LOAD;
use md_hardware::{avg_percent_usage_cpu, CpuUsage};

fn sample(usages: &[u32]) -> Vec<CpuUsage> {
    let mut cpus = Vec::new();
    for (i, usage) in usages.iter().enumerate() {
        cpus.push(CpuUsage {
            usage: *usage,
            name: format!("cpu{}", i),
        });
    }
    cpus
}

#[test]
fn full_load_is_a_hundred_percent_in_hundredths() {
    assert_eq!(FULL_LOAD, 10_000);
}

#[test]
fn empty_sample_has_no_mean() {
    assert_eq!(avg_percent_usage_cpu(&Vec::new()), None);
}

#[test]
fn mean_of_one_core_is_its_usage() {
    assert_eq!(avg_percent_usage_cpu(&sample(&[4321])), Some(4321));
}

#[test]
fn mean_is_the_sum_over_the_count() {
    assert_eq!(avg_percent_usage_cpu(&sample(&[10_000, 5_000])), Some(7_500));
    assert_eq!(
        avg_percent_usage_cpu(&sample(&[0, 2_500, 5_000, 10_000])),
        Some(4_375)
    );
    assert_eq!(avg_percent_usage_cpu(&sample(&[0, 0, 0])), Some(0));
}

#[test]
fn mean_is_rounded_down() {
    assert_eq!(avg_percent_usage_cpu(&sample(&[1, 2])), Some(1));
    assert_eq!(avg_percent_usage_cpu(&sample(&[1, 1, 2])), Some(1));
    assert_eq!(avg_percent_usage_cpu(&sample(&[3, 3, 2])), Some(2));
}

#[test]
fn mean_of_largest_values_does_not_overflow() {
    assert_eq!(
        avg_percent_usage_cpu(&sample(&[u32::MAX, u32::MAX, u32::MAX])),
        Some(u32::MAX)
    );
    assert_eq!(
        avg_percent_usage_cpu(&sample(&[u32::MAX, u32::MAX - 1])),
        Some(u32::MAX - 1)
    );
}

#[test]
fn mean_lies_between_least_and_most() {
    let cpus = sample(&[120, 9_900, 4_000, 77, 10_000]);
    let mean = avg_percent_usage_cpu(&cpus).unwrap();
    assert_eq!(mean, 4_819);
    assert!(77 <= mean && mean <= 10_000);
}
