use vstd::prelude::*;

verus! {

/// Largest value of a 16-bit PCM sample.
pub const PCM_MAX: i128 = 32767;

/// Smallest value of a 16-bit PCM sample.
pub const PCM_MIN: i128 = -32768;

/// Amplitudes, gains and gates are fixed-point numbers in millionths.
pub const MICRO: i128 = 1_000_000;

/// The amplified amplitude `sample * gain`, in units of 10^-12.
pub open spec fn amplified(sample: i32, gain: u32) -> int {
    sample as int * gain as int
}

/// A sample is kept when its amplified magnitude strictly exceeds the noise threshold.
pub open spec fn passes_gate(sample: i32, gain: u32, gate: u32) -> bool {
    let a = amplified(sample, gain);
    (if a >= 0 { a } else { -a }) > gate as int * MICRO
}

/// `n / d` rounded to the nearest integer, halves away from zero.
pub open spec fn round_div(n: int, d: int) -> int {
    if n >= 0 { (n + d / 2) / d } else { -((-n + d / 2) / d) }
}

pub open spec fn clamp_pcm(v: int) -> int {
    if v > PCM_MAX { PCM_MAX as int } else if v < PCM_MIN { PCM_MIN as int } else { v }
}

/// The PCM value of one sample: zero when gated, else the rounded, clamped scaled value.
pub open spec fn pcm_of(sample: i32, gain: u32, gate: u32) -> int {
    if passes_gate(sample, gain, gate) {
        clamp_pcm(round_div(amplified(sample, gain) * PCM_MAX, MICRO * MICRO))
    } else {
        0
    }
}

/// Conditions one sample: gain, then gate, then quantisation to 16-bit PCM.
pub fn condition_sample(sample: i32, gain: u32, gate: u32) -> (r: i16)
    ensures
        r as int == pcm_of(sample, gain, gate),
{
    assert(-0x8000_0000 * 0x1_0000_0000 <= sample as int * gain as int <= 0x8000_0000 * 0x1_0000_0000) by (nonlinear_arith)
        requires -0x8000_0000 <= sample < 0x8000_0000, 0 <= gain < 0x1_0000_0000;
    let a: i128 = (sample as i128) * (gain as i128);
    let mag: i128 = if a >= 0 { a } else { -a };
    if mag > (gate as i128) * MICRO {
        assert(mag * 32767 <= 0x8000_0000 * 0x1_0000_0000 * 32767) by (nonlinear_arith)
            requires 0 <= mag <= 0x8000_0000 * 0x1_0000_0000;
        let scaled: i128 = mag * PCM_MAX;
        let d: i128 = MICRO * MICRO;
        let q: i128 = (scaled + d / 2) / d;
        let v: i128 = if a >= 0 { q } else { -q };
        if v > PCM_MAX {
            32767
        } else if v < PCM_MIN {
            -32768
        } else {
            v as i16
        }
    } else {
        0
    }
}

/// The conditioned sequence: one PCM value per input sample, in order.
pub open spec fn conditioned(samples: Seq<i32>, gain: u32, gate: u32) -> Seq<i16> {
    Seq::new(samples.len(), |i: int| pcm_of(samples[i], gain, gate) as i16)
}

/// Applies gain and noise gate to every sample and quantises to 16-bit PCM.
pub fn condition(samples: &Vec<i32>, gain: u32, gate: u32) -> (r: Vec<i16>)
    ensures
        r@.len() == samples@.len(),
        forall|i: int| 0 <= i < r@.len() ==> r@[i] as int == #[trigger] pcm_of(samples@[i], gain, gate),
{
    let mut out: Vec<i16> = Vec::with_capacity(samples.len());
    let mut i: usize = 0;
    while i < samples.len()
        invariant
            i <= samples@.len(),
            out@.len() == i,
            forall|j: int| 0 <= j < i ==> out@[j] as int == #[trigger] pcm_of(samples@[j], gain, gate),
        decreases samples@.len() - i,
    {
        let v = condition_sample(samples[i], gain, gate);
        out.push(v);
        i = i + 1;
    }
    out
}

} // verus!
verus! {

/// Every sample whose amplified magnitude is at most the threshold conditions to zero.
pub proof fn lemma_gated_is_zero(sample: i32, gain: u32, gate: u32)
    requires
        !passes_gate(sample, gain, gate),
    ensures
        pcm_of(sample, gain, gate) == 0,
{
}

/// With a positive gain and a threshold of at least 1/65534 of full scale, a sample that
/// is kept by the threshold keeps its sign.
pub proof fn lemma_sign_kept(sample: i32, gain: u32, gate: u32)
    requires
        gain > 0,
        gate as int * 65534 >= MICRO,
        passes_gate(sample, gain, gate),
    ensures
        sample > 0 ==> pcm_of(sample, gain, gate) > 0,
        sample < 0 ==> pcm_of(sample, gain, gate) < 0,
{
    let a = amplified(sample, gain);
    let m = if a >= 0 { a } else { -a };
    let d = MICRO * MICRO;
    assert(m * PCM_MAX + d / 2 >= d) by (nonlinear_arith)
        requires m > gate as int * MICRO, gate as int * 65534 >= MICRO, MICRO == 1_000_000, PCM_MAX == 32767, d == MICRO * MICRO;
    assert((m * PCM_MAX + d / 2) / d >= 1) by (nonlinear_arith)
        requires m * PCM_MAX + d / 2 >= d, d > 0;
    if sample > 0 {
        assert(a > 0) by (nonlinear_arith) requires a == sample as int * gain as int, sample > 0, gain > 0;
        assert(a * PCM_MAX == m * PCM_MAX);
    } else if sample < 0 {
        assert(a < 0) by (nonlinear_arith) requires a == sample as int * gain as int, sample < 0, gain > 0;
        assert(-(a * PCM_MAX) == m * PCM_MAX);
    }
}

} // verus!
