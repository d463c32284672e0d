use vstd::prelude::*;

verus! {

/// The transmission modes that can be decoded.
#[derive(Debug, Clone, Copy, PartialEq, Eq, Structural)]
pub enum SSTVMode {
    MartinM1,
}

impl SSTVMode {
    /// The name under which a mode is shown to the user.
    pub open spec fn display_name(self) -> Seq<char> {
        match self {
            SSTVMode::MartinM1 => "Martin M1"@,
        }
    }

    /// The mode's name, as it is shown to the user.
    pub fn to_string(&self) -> (name: String)
        ensures
            name@ == self.display_name(),
            *self == SSTVMode::MartinM1 ==> name@ == "Martin M1"@,
    {
        match self {
            SSTVMode::MartinM1 => String::from_str("Martin M1"),
        }
    }
}

/// Progress of a decoding run.
pub struct SSTVProgress {}

/// How many samples are cut off each end of an analysis window: the
/// instantaneous frequency is unreliable near the edges of a window.
pub open spec fn trim_size(fft_size: int) -> int {
    fft_size / 4
}

/// How far consecutive windows are apart: the length of a window's trimmed
/// centre, so that the centres follow one another without gap or overlap.
pub open spec fn stride(fft_size: int) -> int {
    fft_size - trim_size(fft_size) * 2
}

/// The trim at each end of a window and the distance between windows, for
/// windows of `fft_size` samples.
pub fn window_plan(fft_size: usize) -> (plan: (usize, usize))
    ensures
        plan.0 == trim_size(fft_size as int),
        plan.1 == stride(fft_size as int),
        plan.0 == fft_size / 4,
        plan.1 == fft_size - 2 * (fft_size / 4),
        plan.0 + plan.1 + plan.0 == fft_size,
{
    let trim = fft_size / 4;
    (trim, fft_size - trim * 2)
}

/// The offsets at which the analysis windows of `fft_size` samples start in a
/// recording of `num_samples` samples: every multiple of the stride at which a
/// whole window still fits, in increasing order.
pub fn window_starts(num_samples: usize, fft_size: usize) -> (starts: Vec<usize>)
    requires
        fft_size > 0,
    ensures
        forall|k: int|
            0 <= k < starts.len() ==> #[trigger] starts[k] == k * stride(fft_size as int),
        forall|k: int| 0 <= k < starts.len() ==> #[trigger] starts[k] + fft_size <= num_samples,
        starts.len() * stride(fft_size as int) + fft_size > num_samples,
        forall|k: int|
            0 <= k < starts.len() ==> #[trigger] starts[k] == k * (fft_size - 2 * (fft_size / 4)),
        starts.len() * (fft_size - 2 * (fft_size / 4)) + fft_size > num_samples,
{
    let (_trim, step) = window_plan(fft_size);
    let mut starts: Vec<usize> = Vec::new();
    if fft_size > num_samples {
        return starts;
    }
    let last = num_samples - fft_size;
    let mut start: usize = 0;
    assert(starts.len() * step == 0) by (nonlinear_arith)
        requires
            starts.len() == 0,
    ;
    while start <= last
        invariant
            step == stride(fft_size as int),
            step > 0,
            step <= fft_size,
            last + fft_size == num_samples,
            start == starts.len() * step,
            start <= last + step,
            forall|k: int| 0 <= k < starts.len() ==> #[trigger] starts[k] == k * step,
            forall|k: int| 0 <= k < starts.len() ==> #[trigger] starts[k] + fft_size <= num_samples,
        decreases last + step - start,
    {
        starts.push(start);
        proof {
            assert((starts.len() - 1) * step + step == starts.len() * step) by (nonlinear_arith);
        }
        start = start + step;
    }
    starts
}

/// The trimmed centre of one window ends exactly where that of the next window
/// begins, so the centres of consecutive windows cover the recording without
/// gap and without overlap.
pub proof fn lemma_trimmed_centres_tile(fft_size: int, k: int)
    ensures
        k * stride(fft_size) + fft_size - trim_size(fft_size) == (k + 1) * stride(fft_size)
            + trim_size(fft_size),
{
    assert((k + 1) * stride(fft_size) == k * stride(fft_size) + stride(fft_size)) by (nonlinear_arith);
}

/// For every window size, a quarter of the window (rounded down) is cut off
/// each end, and consecutive windows are the length of what is left apart.
pub proof fn lemma_window_geometry(fft_size: int)
    ensures
        trim_size(fft_size) == fft_size / 4,
        stride(fft_size) == fft_size - 2 * (fft_size / 4),
        fft_size >= 0 ==> 4 * trim_size(fft_size) <= fft_size < 4 * trim_size(fft_size) + 4,
        fft_size > 0 ==> 0 < stride(fft_size) <= fft_size,
{
}

} // verus!
