//! GPU statistics. Usage, temperature and fan speed come from
//! text-parsing an external system utility, which is the application's
//! work, outside this core; what belongs here is the fallback policy
//! that fills in the fan speed from the controller when the utility
//! reports zero.

use vstd::prelude::*;

use crate::decode::DecodedValue;
use crate::sensor::spec_fan_rpm_q128;
use crate::sensor::spec_round_q128;
use crate::sensor::clamp_fan_rpm;
use crate::sensor::round_q128;

verus! {

/// One round of GPU statistics: usage percent, temperature in whole
/// degrees, fan speed in whole RPM.
#[derive(Clone, Copy, Debug, PartialEq, Eq, Structural)]
pub struct GpuStats {
    pub usage: i32,
    pub temp: i32,
    pub fan: i32,
}

/// The fan-speed fallback policy: the externally parsed figure wins
/// whenever it is nonzero; a zero falls back to the controller's
/// clamped fan reading, rounded to whole RPM; without such a reading
/// (no connection, or the read failed) the fan speed stays 0.
pub open spec fn spec_resolved_gpu_fan(parsed: i32, smc: Option<DecodedValue>) -> int {
    if parsed != 0 {
        parsed as int
    } else {
        match smc {
            Some(v) => spec_round_q128(spec_fan_rpm_q128(v) as int),
            None => 0,
        }
    }
}

/// Resolves the GPU fan speed from the externally parsed figure and
/// the controller's fan reading, if one was obtained.
pub fn resolve_gpu_fan(parsed_fan: i32, smc_fan: &Option<DecodedValue>) -> (r: i32)
    ensures
        r as int == spec_resolved_gpu_fan(parsed_fan, *smc_fan),
{
    if parsed_fan != 0 {
        return parsed_fan;
    }
    match smc_fan {
        Some(v) => {
            let q = clamp_fan_rpm(v);
            round_q128(q) as i32
        },
        None => 0,
    }
}

} // verus!
