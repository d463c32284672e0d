use vstd::prelude::*;

verus! {

/// Phases are quantised onto `i16`: one unit is `pi / 32767` radians, and the
/// whole range of `i16` is one turn, so that a difference of two phases
/// wraps around exactly as the angle does.
pub open spec fn wrap_phase(x: int) -> int {
    let m = x % 65536;
    if m >= 32768 {
        m - 65536
    } else {
        m
    }
}

/// The phase step from `from` to `to`, unwrapped by two's-complement
/// overflow: the representative of `to - from` modulo one turn that lies in
/// `[-32768, 32767]`.
pub fn phase_delta(from: i16, to: i16) -> (delta: i16)
    ensures
        delta == wrap_phase(to - from),
        (delta - (to - from)) % 65536 == 0,
{
    proof {
        lemma_wrap_phase_is_representative(to - from);
    }
    to.wrapping_sub(from)
}

/// The phase steps between neighbouring samples: one fewer than there are
/// phases (none for fewer than two).
pub fn phase_deltas(phases: &Vec<i16>) -> (deltas: Vec<i16>)
    ensures
        deltas.len() == if phases.len() == 0 { 0 } else { phases.len() - 1 },
        forall|i: int|
            0 <= i < deltas.len() ==> #[trigger] deltas[i] == wrap_phase(
                phases[i + 1] - phases[i],
            ),
{
    let mut deltas: Vec<i16> = Vec::new();
    let n = phases.len();
    if n < 2 {
        return deltas;
    }
    let mut i: usize = 0;
    while i + 1 < n
        invariant
            n == phases.len(),
            n >= 2,
            i + 1 <= n,
            deltas.len() == i,
            forall|k: int|
                0 <= k < i ==> #[trigger] deltas[k] == wrap_phase(phases[k + 1] - phases[k]),
        decreases n - i,
    {
        let d = phase_delta(phases[i], phases[i + 1]);
        deltas.push(d);
        i = i + 1;
    }
    deltas
}

/// Every integer is taken to the one value in `[-32768, 32767]` that differs
/// from it by a whole number of turns.
pub proof fn lemma_wrap_phase_is_representative(x: int)
    ensures
        -32768 <= wrap_phase(x) <= 32767,
        (wrap_phase(x) - x) % 65536 == 0,
        -32768 <= x <= 32767 ==> wrap_phase(x) == x,
{
    assert((wrap_phase(x) - x) % 65536 == 0) by (nonlinear_arith);
}

/// Adding the step from `from` to `to` onto `from`, with wrap-around, lands
/// exactly on `to`.
pub proof fn lemma_phase_delta_round_trip(from: i16, to: i16)
    ensures
        wrap_phase(from + wrap_phase(to - from)) == to,
{
    assert(wrap_phase(from + wrap_phase(to - from)) == to) by (nonlinear_arith)
        requires
            -32768 <= from <= 32767,
            -32768 <= to <= 32767,
    {
    }
}

/// A phase has no step to itself, and the step back is the negated step
/// forward, taken again modulo one turn.
pub proof fn lemma_phase_delta_antisymmetric(a: i16, b: i16)
    ensures
        wrap_phase(a - a) == 0,
        wrap_phase(-wrap_phase(b - a)) == wrap_phase(a - b),
{
    assert(wrap_phase(-wrap_phase(b - a)) == wrap_phase(a - b)) by (nonlinear_arith)
        requires
            -32768 <= a <= 32767,
            -32768 <= b <= 32767,
    {
    }
}

/// What the analytic-signal filter does to one frequency bin before the
/// inverse transform.
#[derive(Clone, Copy, Debug, PartialEq, Eq, Structural)]
pub enum BinGain {
    /// The bin is set to zero.
    Zero,
    /// The bin is left as it is.
    Keep,
    /// The bin is multiplied by two.
    Double,
}

/// The bin at 0 Hz and the negative frequencies are removed, the positive
/// frequencies below Nyquist are doubled, and the Nyquist bin `n / 2` is kept.
pub open spec fn analytic_gain_spec(bin: int, fft_size: int) -> BinGain {
    if bin == 0 {
        BinGain::Zero
    } else if bin < fft_size / 2 {
        BinGain::Double
    } else if bin == fft_size / 2 {
        BinGain::Keep
    } else {
        BinGain::Zero
    }
}

/// The gain of frequency bin `bin` of a transform of `fft_size` points in
/// the analytic-signal filter.
pub fn analytic_gain(bin: usize, fft_size: usize) -> (gain: BinGain)
    requires
        bin < fft_size,
    ensures
        gain == analytic_gain_spec(bin as int, fft_size as int),
        bin == 0 ==> gain == BinGain::Zero,
        0 < bin < fft_size / 2 ==> gain == BinGain::Double,
        0 < bin && bin == fft_size / 2 ==> gain == BinGain::Keep,
        fft_size / 2 < bin ==> gain == BinGain::Zero,
{
    let nyquist = fft_size / 2;
    if bin == 0 {
        BinGain::Zero
    } else if bin < nyquist {
        BinGain::Double
    } else if bin == nyquist {
        BinGain::Keep
    } else {
        BinGain::Zero
    }
}

/// For a transform of any size, the filter removes the bin at 0 Hz and every
/// negative-frequency bin (above `n / 2`), doubles every positive-frequency
/// bin below `n / 2`, and keeps only the Nyquist bin `n / 2` (when it is not
/// also the bin at 0 Hz).
pub proof fn lemma_analytic_gain_by_frequency(fft_size: int)
    requires
        fft_size > 0,
    ensures
        analytic_gain_spec(0, fft_size) == BinGain::Zero,
        forall|bin: int|
            0 < bin < fft_size / 2 ==> #[trigger] analytic_gain_spec(bin, fft_size)
                == BinGain::Double,
        forall|bin: int|
            fft_size / 2 < bin < fft_size ==> #[trigger] analytic_gain_spec(bin, fft_size)
                == BinGain::Zero,
        fft_size / 2 > 0 ==> analytic_gain_spec(fft_size / 2, fft_size) == BinGain::Keep,
        forall|bin: int|
            0 <= bin < fft_size && #[trigger] analytic_gain_spec(bin, fft_size) == BinGain::Keep
                ==> bin == fft_size / 2,
{
}

} // verus!
