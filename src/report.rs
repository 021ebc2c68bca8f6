use vstd::prelude::*;

use crate::format::CompressError;

verus! {

/// `n / d` rounded toward zero, for `d > 0`.
pub open spec fn div_toward_zero(n: int, d: int) -> int
    recommends
        d > 0,
{
    if n >= 0 {
        n / d
    } else {
        -((-n) / d)
    }
}

/// The share of `original` bytes saved, in hundredths of a percent, rounded
/// toward zero: `(original - compressed) / original * 100`, scaled by 100.
/// Negative where the output grew.
pub open spec fn ratio_spec(original: int, compressed: int) -> int
    recommends
        original > 0,
{
    div_toward_zero((original - compressed) * 10000, original)
}

/// The largest magnitude a per-file ratio can have: `u64::MAX * 10000`.
pub open spec fn ratio_bound() -> int {
    184_467_440_737_095_516_150_000
}

/// The ratio of a file of `original` bytes compressed to `compressed` bytes,
/// in hundredths of a percent; undefined for an empty original.
pub open spec fn ratio_of(original: u64, compressed: u64) -> Option<i128> {
    if original == 0 {
        None
    } else {
        Some(ratio_spec(original as int, compressed as int) as i128)
    }
}

/// Compression ratio in hundredths of a percent (`4000` is 40%). `None` when
/// `original` is zero: the ratio is undefined there and is not computed.
pub fn compression_ratio(original: u64, compressed: u64) -> (r: Option<i128>)
    ensures
        r is None <==> original == 0,
        r matches Some(v) ==> v == ratio_spec(original as int, compressed as int),
        r matches Some(v) ==> -ratio_bound() <= v <= 10000,
        r == ratio_of(original, compressed),
{
    if original == 0 {
        return None;
    }
    let o = original as i128;
    let c = compressed as i128;
    if o >= c {
        let n = (o - c) * 10000;
        assert(0 <= n / o <= 10000) by (nonlinear_arith)
            requires
                n == (o - c) * 10000,
                0 <= o - c <= o,
                o > 0,
        ;
        Some(n / o)
    } else {
        let n = (c - o) * 10000;
        assert(0 <= n / o <= ratio_bound()) by (nonlinear_arith)
            requires
                n == (c - o) * 10000,
                0 < c - o <= 0xffff_ffff_ffff_ffff,
                o > 0,
        ;
        Some(-(n / o))
    }
}

/// A byte count in kilobytes, truncated.
pub fn size_kb(bytes: u64) -> (r: u64)
    ensures
        r == bytes / 1024,
{
    bytes / 1024
}

/// The report for one file: announced before its work starts (pending), then
/// completed or failed. Sizes are in kilobytes; the ratio is in hundredths of
/// a percent, and absent where it is undefined (pending and failed files, and
/// an empty original); the duration is in microseconds.
#[derive(Clone, Debug)]
pub struct CompressImageResult {
    pub original_size: u64,
    pub compressed_size: u64,
    pub compression_ratio: Option<i128>,
    pub output_path: String,
    pub input_path: String,
    pub is_compressed: bool,
    pub duration_us: u64,
    pub error: Option<CompressError>,
}

impl CompressImageResult {
    /// The ratio lies within what `compression_ratio` can produce.
    pub open spec fn wf(&self) -> bool {
        self.compression_ratio matches Some(v) ==> -ratio_bound() <= v <= ratio_bound()
    }
}

/// `r` is the pending report for the file at `input`: no sizes yet, not
/// compressed, no error.
pub open spec fn is_pending_for(r: CompressImageResult, input: Seq<char>) -> bool {
    &&& r.original_size == 0
    &&& r.compressed_size == 0
    &&& r.compression_ratio is None
    &&& r.input_path@ == input
    &&& r.output_path@ == input
    &&& !r.is_compressed
    &&& r.duration_us == 0
    &&& r.error is None
}

/// The pending report for one file, sent before any compression starts.
pub fn pending_result(input: &String) -> (r: CompressImageResult)
    ensures
        is_pending_for(r, input@),
        r.wf(),
{
    CompressImageResult {
        original_size: 0,
        compressed_size: 0,
        compression_ratio: None,
        output_path: input.clone(),
        input_path: input.clone(),
        is_compressed: false,
        duration_us: 0,
        error: None,
    }
}

/// The pending reports of a batch, one per input, in input order.
pub fn pending_results(inputs: &Vec<String>) -> (r: Vec<CompressImageResult>)
    ensures
        r@.len() == inputs@.len(),
        forall|i: int| 0 <= i < inputs@.len() ==> is_pending_for(#[trigger] r@[i], inputs@[i]@),
{
    let mut r: Vec<CompressImageResult> = Vec::new();
    let mut i: usize = 0;
    while i < inputs.len()
        invariant
            i <= inputs@.len(),
            r@.len() == i,
            forall|j: int| 0 <= j < i ==> is_pending_for(#[trigger] r@[j], inputs@[j]@),
        decreases inputs@.len() - i,
    {
        r.push(pending_result(&inputs[i]));
        i = i + 1;
    }
    r
}

/// The report of a file that was compressed: `original_bytes` read from the
/// input, `compressed_bytes` written to the output. The ratio is absent where
/// the input was empty.
pub fn completed_result(
    input: String,
    output: String,
    original_bytes: u64,
    compressed_bytes: u64,
    duration_us: u64,
) -> (r: CompressImageResult)
    ensures
        r.original_size == original_bytes / 1024,
        r.compressed_size == compressed_bytes / 1024,
        r.compression_ratio == ratio_of(original_bytes, compressed_bytes),
        r.input_path@ == input@,
        r.output_path@ == output@,
        r.is_compressed,
        r.duration_us == duration_us,
        r.error is None,
        r.wf(),
{
    let ratio = compression_ratio(original_bytes, compressed_bytes);
    CompressImageResult {
        original_size: size_kb(original_bytes),
        compressed_size: size_kb(compressed_bytes),
        compression_ratio: ratio,
        output_path: output,
        input_path: input,
        is_compressed: true,
        duration_us,
        error: None,
    }
}

/// The report of a file whose compression failed with `error`.
pub fn failed_result(input: String, output: String, error: CompressError) -> (r:
    CompressImageResult)
    ensures
        r.original_size == 0,
        r.compressed_size == 0,
        r.compression_ratio is None,
        r.input_path@ == input@,
        r.output_path@ == output@,
        !r.is_compressed,
        r.duration_us == 0,
        r.error == Some(error),
        r.wf(),
{
    CompressImageResult {
        original_size: 0,
        compressed_size: 0,
        compression_ratio: None,
        output_path: output,
        input_path: input,
        is_compressed: false,
        duration_us: 0,
        error: Some(error),
    }
}

/// The report of one file from what happened to it: `outcome` holds the
/// original and written byte counts, or the error that stopped it. A file
/// without an output path is reported under its input path.
pub fn file_result(
    input: String,
    output: Option<String>,
    outcome: Result<(u64, u64), CompressError>,
    duration_us: u64,
) -> (r: CompressImageResult)
    ensures
        r.input_path@ == input@,
        r.output_path@ == (match output {
            Some(o) => o@,
            None => input@,
        }),
        r.is_compressed == outcome is Ok,
        r.error == (match outcome {
            Ok(_) => None,
            Err(e) => Some(e),
        }),
        outcome matches Ok((a, b)) ==> r.original_size == a / 1024 && r.compressed_size == b
            / 1024 && r.compression_ratio == ratio_of(a, b) && r.duration_us == duration_us,
        outcome is Err ==> r.original_size == 0 && r.compressed_size == 0
            && r.compression_ratio is None && r.duration_us == 0,
        r.wf(),
{
    let out = match output {
        Some(o) => o,
        None => input.clone(),
    };
    match outcome {
        Ok((a, b)) => completed_result(input, out, a, b, duration_us),
        Err(e) => failed_result(input, out, e),
    }
}

/// Totals of a finished batch. `total_saved_kb` counts the compressed files
/// only; `average_ratio` is the mean of their defined ratios, zero when there
/// is none; `rated` is how many ratios it averages.
#[derive(Clone, Debug)]
pub struct BatchSummary {
    pub outcomes: Vec<CompressImageResult>,
    pub total_duration_us: u64,
    pub total_saved_kb: i128,
    pub average_ratio: i128,
    pub succeeded: usize,
    pub rated: usize,
}

/// The number of compressed files in `s`.
pub open spec fn success_count(s: Seq<CompressImageResult>) -> nat
    decreases s.len(),
{
    if s.len() == 0 {
        0
    } else {
        success_count(s.drop_last()) + if s.last().is_compressed {
            1nat
        } else {
            0nat
        }
    }
}

/// Kilobytes saved over the compressed files in `s`.
pub open spec fn saved_total(s: Seq<CompressImageResult>) -> int
    decreases s.len(),
{
    if s.len() == 0 {
        0
    } else {
        saved_total(s.drop_last()) + if s.last().is_compressed {
            s.last().original_size - s.last().compressed_size
        } else {
            0
        }
    }
}

/// `r` is a compressed file whose ratio is defined.
pub open spec fn is_rated(r: CompressImageResult) -> bool {
    r.is_compressed && r.compression_ratio is Some
}

/// The number of compressed files in `s` whose ratio is defined.
pub open spec fn rated_count(s: Seq<CompressImageResult>) -> nat
    decreases s.len(),
{
    if s.len() == 0 {
        0
    } else {
        rated_count(s.drop_last()) + if is_rated(s.last()) {
            1nat
        } else {
            0nat
        }
    }
}

/// The sum of the defined ratios of the compressed files in `s`.
pub open spec fn ratio_total(s: Seq<CompressImageResult>) -> int
    decreases s.len(),
{
    if s.len() == 0 {
        0
    } else {
        ratio_total(s.drop_last()) + if is_rated(s.last()) {
            s.last().compression_ratio.unwrap() as int
        } else {
            0
        }
    }
}

/// The mean of the defined ratios of the compressed files in `s`, rounded
/// toward zero; zero when there is none.
pub open spec fn average_ratio_spec(s: Seq<CompressImageResult>) -> int {
    if rated_count(s) == 0 {
        0
    } else {
        div_toward_zero(ratio_total(s), rated_count(s) as int)
    }
}

/// The largest batch `aggregate` sums over: far more records than memory holds.
pub const MAX_BATCH: usize = 0xffff_ffff;

/// Sums a finished batch's reports into its totals.
pub fn aggregate(outcomes: Vec<CompressImageResult>, total_duration_us: u64) -> (r: BatchSummary)
    requires
        outcomes@.len() <= MAX_BATCH,
        forall|i: int| 0 <= i < outcomes@.len() ==> (#[trigger] outcomes@[i]).wf(),
    ensures
        r.outcomes@ == outcomes@,
        r.total_duration_us == total_duration_us,
        r.succeeded == success_count(outcomes@),
        r.rated == rated_count(outcomes@),
        r.total_saved_kb == saved_total(outcomes@),
        r.average_ratio == average_ratio_spec(outcomes@),
{
    let mut count: usize = 0;
    let mut rated: usize = 0;
    let mut saved: i128 = 0;
    let mut ratios: i128 = 0;
    let mut i: usize = 0;
    while i < outcomes.len()
        invariant
            i <= outcomes@.len(),
            outcomes@.len() <= MAX_BATCH,
            forall|j: int| 0 <= j < outcomes@.len() ==> (#[trigger] outcomes@[j]).wf(),
            count == success_count(outcomes@.take(i as int)),
            count <= i,
            rated == rated_count(outcomes@.take(i as int)),
            rated <= i,
            saved == saved_total(outcomes@.take(i as int)),
            ratios == ratio_total(outcomes@.take(i as int)),
            -(i as int) * 0x1_0000_0000_0000_0000 <= saved <= (i as int) * 0x1_0000_0000_0000_0000,
            -(i as int) * 184_467_440_737_095_516_150_000 <= ratios <= (i as int)
                * 184_467_440_737_095_516_150_000,
        decreases outcomes@.len() - i,
    {
        let o = &outcomes[i];
        assert(outcomes@.take(i + 1).drop_last() =~= outcomes@.take(i as int));
        assert(o.wf());
        if o.is_compressed {
            count = count + 1;
            saved = saved + (o.original_size as i128 - o.compressed_size as i128);
            if let Some(v) = o.compression_ratio {
                rated = rated + 1;
                ratios = ratios + v;
            }
        }
        i = i + 1;
    }
    assert(outcomes@.take(i as int) =~= outcomes@);
    let average = if rated == 0 {
        0
    } else if ratios >= 0 {
        ratios / (rated as i128)
    } else {
        -((-ratios) / (rated as i128))
    };
    BatchSummary {
        outcomes,
        total_duration_us,
        total_saved_kb: saved,
        average_ratio: average,
        succeeded: count,
        rated,
    }
}

pub open spec fn compressed(r: CompressImageResult) -> bool {
    r.is_compressed
}

/// Failed files do not count: a batch's totals equal those of its compressed
/// files alone.
pub proof fn lemma_failures_excluded(s: Seq<CompressImageResult>)
    ensures
        success_count(s) == s.filter(|r: CompressImageResult| compressed(r)).len(),
        success_count(s) == success_count(s.filter(|r: CompressImageResult| compressed(r))),
        rated_count(s) == rated_count(s.filter(|r: CompressImageResult| compressed(r))),
        saved_total(s) == saved_total(s.filter(|r: CompressImageResult| compressed(r))),
        ratio_total(s) == ratio_total(s.filter(|r: CompressImageResult| compressed(r))),
        average_ratio_spec(s) == average_ratio_spec(
            s.filter(|r: CompressImageResult| compressed(r)),
        ),
    decreases s.len(),
{
    let p = |r: CompressImageResult| compressed(r);
    if s.len() > 0 {
        lemma_failures_excluded(s.drop_last());
        assert(s.drop_last().push(s.last()) =~= s);
        s.drop_last().lemma_filter_push(s.last(), p);
        let f = s.drop_last().filter(p);
        if p(s.last()) {
            assert(f.push(s.last()).drop_last() =~= f);
        }
    }
}

/// Files whose ratio is undefined (an empty original, or not compressed)
/// leave the mean ratio alone: it equals the mean over the rated files alone.
pub proof fn lemma_unrated_excluded(s: Seq<CompressImageResult>)
    ensures
        rated_count(s) == s.filter(|r: CompressImageResult| is_rated(r)).len(),
        rated_count(s) == rated_count(s.filter(|r: CompressImageResult| is_rated(r))),
        ratio_total(s) == ratio_total(s.filter(|r: CompressImageResult| is_rated(r))),
        average_ratio_spec(s) == average_ratio_spec(
            s.filter(|r: CompressImageResult| is_rated(r)),
        ),
    decreases s.len(),
{
    let p = |r: CompressImageResult| is_rated(r);
    if s.len() > 0 {
        lemma_unrated_excluded(s.drop_last());
        assert(s.drop_last().push(s.last()) =~= s);
        s.drop_last().lemma_filter_push(s.last(), p);
        let f = s.drop_last().filter(p);
        if p(s.last()) {
            assert(f.push(s.last()).drop_last() =~= f);
        }
    }
}

} // verus!
