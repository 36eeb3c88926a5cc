use vstd::prelude::*;

verus! {

/// One configuration a device supports: a sample-rate range and a channel count.
pub struct SupportedRange {
    pub min_sample_rate: u32,
    pub max_sample_rate: u32,
    pub channels: u16,
}

/// The negotiated configuration: which candidate, at which rate.
pub struct DeviceConfig {
    pub candidate: usize,
    pub sample_rate: u32,
    pub channels: u16,
}

/// The target clamped into a candidate's range.
pub open spec fn clamped_rate(c: SupportedRange, target: u32) -> u32 {
    if target < c.min_sample_rate { c.min_sample_rate }
    else if target > c.max_sample_rate { c.max_sample_rate }
    else { target }
}

pub open spec fn distance(c: SupportedRange, target: u32) -> nat {
    let r = clamped_rate(c, target) as int;
    (if target as int >= r { target as int - r } else { r - target as int }) as nat
}

/// Picks the candidate whose clamped rate is nearest the target; the first on ties.
pub fn find_closest_supported_sample_rate(candidates: &Vec<SupportedRange>, target_rate: u32) -> (r: Option<DeviceConfig>)
    ensures
        r is None <==> candidates@.len() == 0,
        r matches Some(c) ==> {
            &&& c.candidate < candidates@.len()
            &&& c.sample_rate == clamped_rate(candidates@[c.candidate as int], target_rate)
            &&& c.channels == candidates@[c.candidate as int].channels
            &&& forall|j: int| 0 <= j < candidates@.len() ==> distance(candidates@[c.candidate as int], target_rate) <= #[trigger] distance(candidates@[j], target_rate)
            &&& forall|j: int| 0 <= j < c.candidate ==> distance(candidates@[c.candidate as int], target_rate) < #[trigger] distance(candidates@[j], target_rate)
        },
{
    if candidates.len() == 0 {
        return None;
    }
    let mut best: usize = 0;
    let mut best_rate: u32 = clamp_to(&candidates[0], target_rate);
    let mut best_dist: u32 = gap(best_rate, target_rate);
    let mut i: usize = 1;
    while i < candidates.len()
        invariant
            1 <= i <= candidates@.len(),
            best < i,
            best_rate == clamped_rate(candidates@[best as int], target_rate),
            best_dist as nat == distance(candidates@[best as int], target_rate),
            forall|j: int| 0 <= j < i ==> best_dist <= #[trigger] distance(candidates@[j], target_rate),
            forall|j: int| 0 <= j < best ==> best_dist < #[trigger] distance(candidates@[j], target_rate),
        decreases candidates@.len() - i,
    {
        let rate = clamp_to(&candidates[i], target_rate);
        let d = gap(rate, target_rate);
        if d < best_dist {
            best = i;
            best_rate = rate;
            best_dist = d;
        }
        i = i + 1;
    }
    Some(DeviceConfig { candidate: best, sample_rate: best_rate, channels: candidates[best].channels })
}

fn clamp_to(c: &SupportedRange, target: u32) -> (r: u32)
    ensures
        r == clamped_rate(*c, target),
{
    if target < c.min_sample_rate {
        c.min_sample_rate
    } else if target > c.max_sample_rate {
        c.max_sample_rate
    } else {
        target
    }
}

fn gap(a: u32, b: u32) -> (r: u32)
    ensures
        r as int == (if b as int >= a as int { b as int - a as int } else { a as int - b as int }),
{
    if b >= a { b - a } else { a - b }
}

} // verus!
