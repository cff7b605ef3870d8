//! The sensor query layer: plausibility filtering, aggregation and
//! fallback policy over decoded register readings.
//!
//! The layer never talks to the controller itself: the application
//! reads the keys this library names and hands the outcomes back, one
//! `Result` per attempted key, so every policy decision below is a
//! verified function of those outcomes.
//!
//! Plausibility clamps are deliberate policy, named here as constants:
//! a temperature is accepted only strictly between 0 and 150 degrees,
//! a fan speed only between 0 and 20000 RPM (implausible speeds are
//! reported as 0 rather than propagated as errors).

use vstd::arithmetic::div_mod::lemma_div_is_ordered;
use vstd::arithmetic::div_mod::lemma_div_multiples_vanish;
use vstd::arithmetic::div_mod::lemma_div_pos_is_pos;
use vstd::prelude::*;

use crate::decode::DecodedValue;
use crate::error::CodecError;
use crate::error::SensorError;

verus! {

/// Exclusive upper bound of a plausible temperature: 150 degrees.
pub const TEMP_PLAUSIBLE_MAX_Q128: i64 = 150 * 128;

/// Inclusive upper bound of a plausible fan speed: 20000 RPM.
pub const RPM_PLAUSIBLE_MAX_Q128: i64 = 20000 * 128;

/// The fixed fan identifiers of the two-fan model.
pub const CPU_FAN_ID: usize = 0;

pub const GPU_FAN_ID: usize = 1;

/// A temperature reading is physically plausible when it is finite and
/// lies strictly between 0 and 150 degrees.
pub open spec fn plausible_temp(v: DecodedValue) -> bool {
    match v {
        DecodedValue::Finite(q) => 0 < q < TEMP_PLAUSIBLE_MAX_Q128,
        DecodedValue::NonFinite => false,
    }
}

/// A read outcome that yielded a plausible temperature.
pub open spec fn plausible_reading(r: Result<DecodedValue, CodecError>) -> bool {
    match r {
        Ok(v) => plausible_temp(v),
        Err(_) => false,
    }
}

/// The q128 value inside a plausible reading.
pub open spec fn reading_q128(r: Result<DecodedValue, CodecError>) -> i64 {
    match r {
        Ok(DecodedValue::Finite(q)) => q,
        _ => 0,
    }
}

/// The plausible temperatures among a sequence of read outcomes, in
/// order.
pub open spec fn plausible_q128s(rs: Seq<Result<DecodedValue, CodecError>>) -> Seq<i64>
    decreases rs.len(),
{
    if rs.len() == 0 {
        Seq::<i64>::empty()
    } else {
        let rest = plausible_q128s(rs.drop_last());
        if plausible_reading(rs.last()) {
            rest.push(reading_q128(rs.last()))
        } else {
            rest
        }
    }
}

/// The sum of a sequence of q128 values.
pub open spec fn sum_q128(s: Seq<i64>) -> int
    decreases s.len(),
{
    if s.len() == 0 {
        0
    } else {
        sum_q128(s.drop_last()) + s.last()
    }
}

/// Checks a single reading for plausibility.
pub fn is_plausible_temp(v: &DecodedValue) -> (r: bool)
    ensures
        r == plausible_temp(*v),
{
    match v {
        DecodedValue::Finite(q) => 0 < *q && *q < TEMP_PLAUSIBLE_MAX_Q128,
        DecodedValue::NonFinite => false,
    }
}

/// The mean of the plausible temperatures among the outcomes, in q128
/// units truncated downward, or `None` when no outcome is plausible.
/// This is the per-core aggregation step of the CPU temperature
/// policy: implausible readings are excluded from the mean, they do
/// not drag it down.
pub fn average_plausible_temp(readings: &Vec<Result<DecodedValue, CodecError>>) -> (r: Option<
    i64,
>)
    ensures
        ({
            let ps = plausible_q128s(readings@);
            if ps.len() == 0 {
                r is None
            } else {
                r == Some::<i64>((sum_q128(ps) / ps.len() as int) as i64)
            }
        }),
{
    let mut total: i128 = 0;
    let mut count: usize = 0;
    let mut i: usize = 0;
    while i < readings.len()
        invariant
            i <= readings@.len(),
            count as int == plausible_q128s(readings@.take(i as int)).len(),
            count <= i,
            total == sum_q128(plausible_q128s(readings@.take(i as int))),
            0 <= total <= (count as int) * 19199,  // one below TEMP_PLAUSIBLE_MAX_Q128
        decreases readings@.len() - i,
    {
        let cur: Result<DecodedValue, CodecError> = readings[i];
        let ghost prefix = readings@.take(i as int);
        let ghost next_prefix = readings@.take(i as int + 1);
        let ghost ps = plausible_q128s(prefix);
        proof {
            assert(next_prefix.drop_last() =~= prefix);
            assert(next_prefix.last() == readings@[i as int]);
        }
        match cur {
            Ok(v) => {
                if is_plausible_temp(&v) {
                    let q: i64 = match v {
                        DecodedValue::Finite(q) => q,
                        DecodedValue::NonFinite => 0,
                    };
                    proof {
                        assert(plausible_q128s(next_prefix) == ps.push(q));
                        assert(ps.push(q).drop_last() =~= ps);
                        assert(ps.push(q).last() == q);
                        assert(TEMP_PLAUSIBLE_MAX_Q128 == 19200);
                        assert(total + q <= (count as int + 1) * 19199);
                    }
                    total = total + (q as i128);
                    count = count + 1;
                } else {
                    proof {
                        assert(plausible_q128s(next_prefix) == ps);
                    }
                }
            },
            Err(_) => {
                proof {
                    assert(plausible_q128s(next_prefix) == ps);
                }
            },
        }
        i = i + 1;
    }
    proof {
        assert(readings@.take(readings@.len() as int) =~= readings@);
    }
    if count == 0 {
        None
    } else {
        proof {
            lemma_div_pos_is_pos(total as int, count as int);
            lemma_div_is_ordered(total as int, (count as int) * 19199, count as int);
            lemma_div_multiples_vanish(19199, count as int);
        }
        let avg: i128 = total / (count as i128);
        Some(avg as i64)
    }
}

/// The first plausible temperature among the outcomes, in the order
/// given, or `None` when there is none. This is the ordered fallback
/// step of the CPU temperature policy.
pub open spec fn spec_first_plausible(rs: Seq<Result<DecodedValue, CodecError>>) -> Option<i64>
    decreases rs.len(),
{
    if rs.len() == 0 {
        None
    } else if plausible_reading(rs[0]) {
        Some(reading_q128(rs[0]))
    } else {
        spec_first_plausible(rs.skip(1))
    }
}

pub fn first_plausible_temp(readings: &Vec<Result<DecodedValue, CodecError>>) -> (r: Option<i64>)
    ensures
        r == spec_first_plausible(readings@),
{
    let mut i: usize = 0;
    proof {
        assert(readings@.skip(0) =~= readings@);
    }
    while i < readings.len()
        invariant
            i <= readings@.len(),
            spec_first_plausible(readings@) == spec_first_plausible(readings@.skip(i as int)),
        decreases readings@.len() - i,
    {
        proof {
            assert(readings@.skip(i as int)[0] == readings@[i as int]);
            assert(readings@.skip(i as int).skip(1) =~= readings@.skip(i as int + 1));
        }
        let cur: Result<DecodedValue, CodecError> = readings[i];
        match cur {
            Ok(v) => {
                if is_plausible_temp(&v) {
                    let q: i64 = match v {
                        DecodedValue::Finite(q) => q,
                        DecodedValue::NonFinite => 0,
                    };
                    return Some(q);
                }
            },
            Err(_) => {},
        }
        i = i + 1;
    }
    None
}

/// Whatever reading the fallback step picks is plausible, so it lies
/// strictly between 0 and 150 degrees.
pub proof fn lemma_first_plausible_bounds(rs: Seq<Result<DecodedValue, CodecError>>)
    ensures
        match spec_first_plausible(rs) {
            Some(q) => 0 < q < TEMP_PLAUSIBLE_MAX_Q128,
            None => true,
        },
    decreases rs.len(),
{
    if rs.len() > 0 && !plausible_reading(rs[0]) {
        lemma_first_plausible_bounds(rs.skip(1));
    }
}

/// The CPU temperature policy over one round of readings: the mean of
/// the plausible per-core readings; failing every core, the first
/// plausible reading among the fallback keys in their priority order;
/// failing those too, `Unavailable`.
pub open spec fn spec_cpu_temp(
    cores: Seq<Result<DecodedValue, CodecError>>,
    fallbacks: Seq<Result<DecodedValue, CodecError>>,
) -> Result<i64, SensorError> {
    let ps = plausible_q128s(cores);
    if ps.len() > 0 {
        Ok((sum_q128(ps) / ps.len() as int) as i64)
    } else {
        match spec_first_plausible(fallbacks) {
            Some(q) => Ok(q),
            None => Err(SensorError::Unavailable),
        }
    }
}

pub fn cpu_temp_from_readings(
    cores: &Vec<Result<DecodedValue, CodecError>>,
    fallbacks: &Vec<Result<DecodedValue, CodecError>>,
) -> (r: Result<i64, SensorError>)
    ensures
        r == spec_cpu_temp(cores@, fallbacks@),
{
    match average_plausible_temp(cores) {
        Some(t) => Ok(t),
        None => match first_plausible_temp(fallbacks) {
            Some(t) => Ok(t),
            None => Err(SensorError::Unavailable),
        },
    }
}

/// The fan-speed plausibility clamp: a finite reading between 0 and
/// 20000 RPM passes through; anything else is reported as 0 rather
/// than as an error.
pub open spec fn spec_fan_rpm_q128(v: DecodedValue) -> i64 {
    match v {
        DecodedValue::Finite(q) => if 0 <= q <= RPM_PLAUSIBLE_MAX_Q128 {
            q
        } else {
            0
        },
        DecodedValue::NonFinite => 0,
    }
}

pub fn clamp_fan_rpm(v: &DecodedValue) -> (r: i64)
    ensures
        r == spec_fan_rpm_q128(*v),
{
    match v {
        DecodedValue::Finite(q) => if 0 <= *q && *q <= RPM_PLAUSIBLE_MAX_Q128 {
            *q
        } else {
            0
        },
        DecodedValue::NonFinite => 0,
    }
}

/// The two-fan report: the CPU fan under identifier 0, then the GPU
/// fan under identifier 1, each present exactly when its reading
/// succeeded and its clamped speed is strictly positive (a stopped or
/// unreadable fan is skipped, not reported as 0).
pub open spec fn spec_fan_list(
    cpu: Result<DecodedValue, CodecError>,
    gpu: Result<DecodedValue, CodecError>,
) -> Seq<(usize, i64)> {
    let c: Seq<(usize, i64)> = match cpu {
        Ok(v) => if spec_fan_rpm_q128(v) > 0 {
            seq![(CPU_FAN_ID, spec_fan_rpm_q128(v))]
        } else {
            Seq::empty()
        },
        Err(_) => Seq::empty(),
    };
    let g: Seq<(usize, i64)> = match gpu {
        Ok(v) => if spec_fan_rpm_q128(v) > 0 {
            seq![(GPU_FAN_ID, spec_fan_rpm_q128(v))]
        } else {
            Seq::empty()
        },
        Err(_) => Seq::empty(),
    };
    c + g
}

pub fn collect_fan_speeds(
    cpu_fan: &Result<DecodedValue, CodecError>,
    gpu_fan: &Result<DecodedValue, CodecError>,
) -> (r: Vec<(usize, i64)>)
    ensures
        r@ == spec_fan_list(*cpu_fan, *gpu_fan),
{
    let mut r: Vec<(usize, i64)> = Vec::new();
    match cpu_fan {
        Ok(v) => {
            let rpm = clamp_fan_rpm(v);
            if rpm > 0 {
                r.push((CPU_FAN_ID, rpm));
            }
        },
        Err(_) => {},
    }
    match gpu_fan {
        Ok(v) => {
            let rpm = clamp_fan_rpm(v);
            if rpm > 0 {
                r.push((GPU_FAN_ID, rpm));
            }
        },
        Err(_) => {},
    }
    proof {
        assert(r@ =~= spec_fan_list(*cpu_fan, *gpu_fan));
    }
    r
}

/// Rounding of a nonnegative q128 value to whole units, halves upward,
/// as reported per-core temperatures and fallback fan speeds are.
pub open spec fn spec_round_q128(q: int) -> int {
    (q + 64) / 128
}

pub fn round_q128(q: i64) -> (r: i64)
    requires
        0 <= q <= i64::MAX - 64,
    ensures
        r == spec_round_q128(q as int),
{
    (q + 64) / 128
}

/// Rounding of any q128 value to whole units, halves away from zero,
/// as a directly read register's value is reported.
pub open spec fn spec_round_q128_signed(q: int) -> int {
    if q >= 0 {
        (q + 64) / 128
    } else {
        -((-q + 64) / 128)
    }
}

pub fn round_q128_signed(q: i64) -> (r: i64)
    ensures
        r as int == spec_round_q128_signed(q as int),
{
    let wide: i128 = q as i128;
    let rounded: i128 = if wide >= 0 {
        (wide + 64) / 128
    } else {
        proof {
            lemma_div_pos_is_pos(-wide + 64, 128);
            lemma_div_is_ordered(-wide + 64, 0x8000_0000_0000_0040, 128);
        }
        -((-wide + 64) / 128)
    };
    rounded as i64
}

/// The direct part of the per-core temperature report, from core `i`
/// on: a plausible core reading is reported under its core index,
/// rounded to whole degrees; a failed or implausible one is replaced
/// by the proximity reading, but only while the report is still empty
/// (so at most one proximity entry ever appears); otherwise the core
/// is skipped.
pub open spec fn spec_core_report_from(
    cores: Seq<Result<DecodedValue, CodecError>>,
    prox: Result<DecodedValue, CodecError>,
    i: int,
    empty_so_far: bool,
) -> Seq<(usize, i32)>
    decreases cores.len() - i when 0 <= i <= cores.len()
{
    if i < 0 || i >= cores.len() {
        Seq::<(usize, i32)>::empty()
    } else if plausible_reading(cores[i]) {
        seq![(i as usize, spec_round_q128(reading_q128(cores[i]) as int) as i32)]
            + spec_core_report_from(cores, prox, i + 1, false)
    } else if empty_so_far && plausible_reading(prox) {
        seq![(i as usize, spec_round_q128(reading_q128(prox) as int) as i32)]
            + spec_core_report_from(cores, prox, i + 1, false)
    } else {
        spec_core_report_from(cores, prox, i + 1, empty_so_far)
    }
}

/// The full per-core temperature report: the direct part when it has
/// any entry; otherwise the first plausible reading among the final
/// fallback keys, applied to every core alike; otherwise empty (an
/// empty report is not an error).
pub open spec fn spec_core_temps_report(
    cores: Seq<Result<DecodedValue, CodecError>>,
    prox: Result<DecodedValue, CodecError>,
    fallbacks: Seq<Result<DecodedValue, CodecError>>,
) -> Seq<(usize, i32)> {
    let direct = spec_core_report_from(cores, prox, 0, true);
    if direct.len() > 0 {
        direct
    } else {
        match spec_first_plausible(fallbacks) {
            Some(q) => Seq::new(
                cores.len(),
                |j: int| (j as usize, spec_round_q128(q as int) as i32),
            ),
            None => Seq::<(usize, i32)>::empty(),
        }
    }
}

/// Builds the per-core temperature report from one reading per core,
/// one proximity reading, and one reading per final fallback key.
pub fn core_temps_report(
    cores: &Vec<Result<DecodedValue, CodecError>>,
    proximity: &Result<DecodedValue, CodecError>,
    fallbacks: &Vec<Result<DecodedValue, CodecError>>,
) -> (r: Vec<(usize, i32)>)
    ensures
        r@ == spec_core_temps_report(cores@, *proximity, fallbacks@),
{
    let mut acc: Vec<(usize, i32)> = Vec::new();
    let mut i: usize = 0;
    proof {
        assert(Seq::<(usize, i32)>::empty() + spec_core_report_from(cores@, *proximity, 0, true)
            =~= spec_core_report_from(cores@, *proximity, 0, true));
    }
    while i < cores.len()
        invariant
            i <= cores@.len(),
            spec_core_report_from(cores@, *proximity, 0, true) == acc@ + spec_core_report_from(
                cores@,
                *proximity,
                i as int,
                acc@.len() == 0,
            ),
        decreases cores@.len() - i,
    {
        let ghost before = acc@;
        let ghost tail = spec_core_report_from(cores@, *proximity, i as int, before.len() == 0);
        let cur: Result<DecodedValue, CodecError> = cores[i];
        match cur {
            Ok(v) => {
                if is_plausible_temp(&v) {
                    let q: i64 = match v {
                        DecodedValue::Finite(q) => q,
                        DecodedValue::NonFinite => 0,
                    };
                    acc.push((i, round_q128(q) as i32));
                } else {
                    push_proximity_if_first(&mut acc, proximity, i);
                }
            },
            Err(_) => {
                push_proximity_if_first(&mut acc, proximity, i);
            },
        }
        proof {
            let after_tail = spec_core_report_from(
                cores@,
                *proximity,
                i as int + 1,
                acc@.len() == 0,
            );
            assert(acc@ + after_tail =~= before + tail);
        }
        i = i + 1;
    }
    proof {
        assert(spec_core_report_from(cores@, *proximity, cores@.len() as int, acc@.len() == 0)
            =~= Seq::<(usize, i32)>::empty());
        assert(acc@ + Seq::<(usize, i32)>::empty() =~= acc@);
    }
    if acc.len() > 0 {
        return acc;
    }
    match first_plausible_temp(fallbacks) {
        Some(q) => {
            proof {
                lemma_first_plausible_bounds(fallbacks@);
            }
            let rounded = round_q128(q) as i32;
            let mut all: Vec<(usize, i32)> = Vec::new();
            let mut j: usize = 0;
            while j < cores.len()
                invariant
                    j <= cores@.len(),
                    spec_first_plausible(fallbacks@) == Some(q),
                    rounded == spec_round_q128(q as int) as i32,
                    all@ =~= Seq::new(j as nat, |k: int| (k as usize, rounded)),
                decreases cores@.len() - j,
            {
                all.push((j, rounded));
                j = j + 1;
            }
            proof {
                assert(all@ =~= spec_core_temps_report(cores@, *proximity, fallbacks@));
            }
            all
        },
        None => {
            let empty: Vec<(usize, i32)> = Vec::new();
            empty
        },
    }
}

/// Appends the rounded proximity reading under core index `i`, but
/// only when the report is still empty and the reading is plausible.
fn push_proximity_if_first(
    acc: &mut Vec<(usize, i32)>,
    proximity: &Result<DecodedValue, CodecError>,
    i: usize,
)
    ensures
        final(acc)@ == if old(acc)@.len() == 0 && plausible_reading(*proximity) {
            old(acc)@.push(
                (i, spec_round_q128(reading_q128(*proximity) as int) as i32),
            )
        } else {
            old(acc)@
        },
{
    if acc.len() != 0 {
        return ;
    }
    match proximity {
        Ok(v) => {
            if is_plausible_temp(v) {
                let q: i64 = match v {
                    DecodedValue::Finite(q) => *q,
                    DecodedValue::NonFinite => 0,
                };
                acc.push((i, round_q128(q) as i32));
            }
        },
        Err(_) => {},
    }
}

} // verus!
