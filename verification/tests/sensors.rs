use smc_telemetry::decode::DecodedValue;
use smc_telemetry::error::{CodecError, SensorError};
use smc_telemetry::gpu::resolve_gpu_fan;
use smc_telemetry::sensor::{
    average_plausible_temp, clamp_fan_rpm, collect_fan_speeds, core_temps_report,
    cpu_temp_from_readings, first_plausible_temp, round_q128, round_q128_signed,
};
use smc_telemetry::usage::fold_cpu_usage;

type Reading = Result<DecodedValue, CodecError>;

fn deg(d: i64) -> Reading {
    Ok(DecodedValue::Finite(d * 128))
}

#[test]
fn temperature_mean_excludes_implausible_readings() {
    // 45.0, 47.0 and an implausible 0.0: the mean of the two valid
    // readings is 46.0.
    let readings: Vec<Reading> = vec![deg(45), deg(47), deg(0)];
    assert_eq!(average_plausible_temp(&readings), Some(46 * 128));
}

#[test]
fn temperature_mean_over_no_plausible_reading_is_none() {
    let readings: Vec<Reading> = vec![
        deg(0),
        deg(150),
        deg(-3),
        Ok(DecodedValue::NonFinite),
        Err(CodecError::KeyInfoFailed(-1)),
    ];
    assert_eq!(average_plausible_temp(&readings), None);
}

#[test]
fn temperature_mean_truncates() {
    // 45.0 and 46.5 average to 45.75 = 5856 q128 units exactly.
    let readings: Vec<Reading> =
        vec![deg(45), Ok(DecodedValue::Finite(46 * 128 + 64))];
    assert_eq!(average_plausible_temp(&readings), Some(5856));
}

#[test]
fn fallback_takes_the_first_plausible_reading() {
    let readings: Vec<Reading> = vec![
        Err(CodecError::ReadFailed(-1)),
        deg(0),
        deg(52),
        deg(48),
    ];
    assert_eq!(first_plausible_temp(&readings), Some(52 * 128));
    assert_eq!(first_plausible_temp(&Vec::new()), None);
}

#[test]
fn cpu_temp_prefers_core_average_then_fallbacks() {
    let cores: Vec<Reading> = vec![deg(45), deg(47)];
    let fallbacks: Vec<Reading> = vec![deg(60)];
    assert_eq!(cpu_temp_from_readings(&cores, &fallbacks), Ok(46 * 128));

    let cores: Vec<Reading> = vec![deg(0), Err(CodecError::InvalidKey)];
    assert_eq!(cpu_temp_from_readings(&cores, &fallbacks), Ok(60 * 128));

    let empty: Vec<Reading> = Vec::new();
    let dead: Vec<Reading> = vec![deg(0), Ok(DecodedValue::NonFinite)];
    assert_eq!(
        cpu_temp_from_readings(&empty, &dead),
        Err(SensorError::Unavailable)
    );
}

#[test]
fn fan_clamp_reports_implausible_speeds_as_zero() {
    assert_eq!(clamp_fan_rpm(&DecodedValue::Finite(20000 * 128)), 20000 * 128);
    assert_eq!(clamp_fan_rpm(&DecodedValue::Finite(20000 * 128 + 1)), 0);
    assert_eq!(clamp_fan_rpm(&DecodedValue::Finite(-1)), 0);
    assert_eq!(clamp_fan_rpm(&DecodedValue::Finite(0)), 0);
    assert_eq!(clamp_fan_rpm(&DecodedValue::NonFinite), 0);
}

#[test]
fn fan_report_skips_stopped_and_unreadable_fans() {
    let cpu_fan: Reading = Ok(DecodedValue::Finite(1200 * 128));
    let gpu_fan: Reading = Ok(DecodedValue::Finite(2400 * 128));
    assert_eq!(
        collect_fan_speeds(&cpu_fan, &gpu_fan),
        vec![(0usize, 1200 * 128i64), (1usize, 2400 * 128i64)]
    );
    let stopped: Reading = Ok(DecodedValue::Finite(0));
    assert_eq!(
        collect_fan_speeds(&stopped, &gpu_fan),
        vec![(1usize, 2400 * 128i64)]
    );
    let failed: Reading = Err(CodecError::ReadFailed(-1));
    assert_eq!(collect_fan_speeds(&failed, &stopped), Vec::new());
}

#[test]
fn rounding_is_half_upward() {
    assert_eq!(round_q128(45 * 128 + 64), 46);
    assert_eq!(round_q128(45 * 128 + 63), 45);
    assert_eq!(round_q128(0), 0);
}

#[test]
fn signed_rounding_is_half_away_from_zero() {
    assert_eq!(round_q128_signed(45 * 128 + 64), 46);
    assert_eq!(round_q128_signed(-(45 * 128 + 64)), -46);
    assert_eq!(round_q128_signed(-(45 * 128 + 63)), -45);
    assert_eq!(round_q128_signed(-64), -1);
    assert_eq!(round_q128_signed(-63), 0);
    assert_eq!(round_q128_signed(0), 0);
    // The saturated IEEE decodes round without panicking:
    // (2^63 - 1 + 64) / 128 and -((2^63 + 64) / 128), truncated.
    assert_eq!(round_q128_signed(i64::MAX), 72057594037927936);
    assert_eq!(round_q128_signed(i64::MIN), -72057594037927936);
}

#[test]
fn core_report_uses_plausible_cores_directly() {
    let cores: Vec<Reading> = vec![deg(45), deg(47)];
    let prox: Reading = deg(50);
    let fallbacks: Vec<Reading> = vec![deg(60)];
    assert_eq!(
        core_temps_report(&cores, &prox, &fallbacks),
        vec![(0usize, 45i32), (1usize, 47i32)]
    );
}

#[test]
fn core_report_fills_first_gap_with_proximity() {
    let cores: Vec<Reading> = vec![Err(CodecError::ReadFailed(-1)), deg(47)];
    let prox: Reading = deg(50);
    let fallbacks: Vec<Reading> = Vec::new();
    assert_eq!(
        core_temps_report(&cores, &prox, &fallbacks),
        vec![(0usize, 50i32), (1usize, 47i32)]
    );
    // Once the report has an entry, further gaps are skipped.
    let cores: Vec<Reading> = vec![deg(45), Err(CodecError::ReadFailed(-1))];
    assert_eq!(
        core_temps_report(&cores, &prox, &fallbacks),
        vec![(0usize, 45i32)]
    );
}

#[test]
fn core_report_applies_fallback_to_every_core() {
    let cores: Vec<Reading> = vec![deg(0), Err(CodecError::InvalidKey), deg(200)];
    let prox: Reading = Ok(DecodedValue::NonFinite);
    let fallbacks: Vec<Reading> = vec![deg(0), deg(46)];
    assert_eq!(
        core_temps_report(&cores, &prox, &fallbacks),
        vec![(0usize, 46i32), (1usize, 46i32), (2usize, 46i32)]
    );
}

#[test]
fn core_report_is_empty_when_everything_fails() {
    let cores: Vec<Reading> = vec![deg(0), deg(0)];
    let prox: Reading = deg(0);
    let fallbacks: Vec<Reading> = vec![deg(0)];
    assert_eq!(core_temps_report(&cores, &prox, &fallbacks), Vec::new());
}

#[test]
fn usage_fold_averages_hyperthread_pairs() {
    // Eight logical threads over four physical cores: each (70, 90)
    // pair folds to one core figure of 80; the aggregate is 80.
    let raw: Vec<i32> = vec![70, 90, 70, 90, 70, 90, 70, 90];
    let u = fold_cpu_usage(&raw, 4);
    assert_eq!(u.threads, raw);
    assert_eq!(u.cores, vec![80, 80, 80, 80]);
    assert_eq!(u.total, 80);
}

#[test]
fn usage_fold_clamps_and_truncates() {
    let raw: Vec<i32> = vec![-5, 150, 33, 10];
    let u = fold_cpu_usage(&raw, 2);
    assert_eq!(u.threads, vec![0, 100, 33, 10]);
    // (0 + 100) / 2 = 50, (33 + 10) / 2 = 21 (toward zero).
    assert_eq!(u.cores, vec![50, 21]);
    // (50 + 21) / 2 = 35 (toward zero).
    assert_eq!(u.total, 35);
}

#[test]
fn usage_passes_through_when_threads_do_not_exceed_cores() {
    // Three threads on three physical cores: no hyperthreading is
    // reported, so the thread figures pass through unchanged.
    let raw: Vec<i32> = vec![50, 60, 70];
    let u = fold_cpu_usage(&raw, 3);
    assert_eq!(u.cores, vec![50, 60, 70]);
    assert_eq!(u.total, 60);
    // Fewer threads than cores passes through too.
    let raw: Vec<i32> = vec![70, 90];
    let u = fold_cpu_usage(&raw, 4);
    assert_eq!(u.cores, vec![70, 90]);
    assert_eq!(u.total, 80);
}

#[test]
fn usage_fold_never_exceeds_the_core_count() {
    // Five threads on three cores: two full pairs fold; the trailing
    // unpaired thread has no pair to average with.
    let raw: Vec<i32> = vec![10, 20, 30, 40, 50];
    let u = fold_cpu_usage(&raw, 3);
    assert_eq!(u.cores, vec![15, 35]);
    assert_eq!(u.total, 25);
    // Three threads on one core: one pair fills the single core slot.
    let raw: Vec<i32> = vec![50, 60, 70];
    let u = fold_cpu_usage(&raw, 1);
    assert_eq!(u.cores, vec![55]);
    assert_eq!(u.total, 55);
}

#[test]
fn usage_fold_of_no_threads_is_zero() {
    let raw: Vec<i32> = Vec::new();
    let u = fold_cpu_usage(&raw, 4);
    assert_eq!(u.cores, Vec::new());
    assert_eq!(u.total, 0);
}

#[test]
fn gpu_fan_falls_back_to_the_controller_reading() {
    assert_eq!(resolve_gpu_fan(1450, &None), 1450);
    assert_eq!(resolve_gpu_fan(1450, &Some(DecodedValue::Finite(2000 * 128))), 1450);
    assert_eq!(resolve_gpu_fan(0, &Some(DecodedValue::Finite(2000 * 128))), 2000);
    assert_eq!(resolve_gpu_fan(0, &Some(DecodedValue::Finite(-5))), 0);
    assert_eq!(resolve_gpu_fan(0, &Some(DecodedValue::NonFinite)), 0);
    assert_eq!(resolve_gpu_fan(0, &None), 0);
}
