//! Measured outcome of one benchmark job.
use vstd::prelude::*;

verus! {

/// Why a job produced no result.
#[derive(Debug, Clone, Copy, PartialEq, Eq, Structural)]
pub enum JobFailure {
    /// The codec could not be started in compress mode, or exited abnormally.
    CompressFailed,
    /// The codec could not be started in decompress mode, or exited abnormally.
    DecompressFailed,
    /// The size of the source bitmap could not be read.
    SourceSizeUnreadable,
    /// The size of the compressed artifact could not be read (it may be missing).
    CompressedSizeUnreadable,
    /// The compressed artifact is empty, so no compression ratio exists.
    EmptyCompressedOutput,
}

/// An exact, non-negative rational number `numerator / denominator`.
#[derive(Debug, Clone, Copy, PartialEq, Eq, Structural)]
pub struct Ratio {
    pub numerator: u64,
    pub denominator: u64,
}

impl Ratio {
    /// `self <= other` as rationals, given positive denominators.
    pub open spec fn spec_le(self, other: Ratio) -> bool {
        (self.numerator as int) * (other.denominator as int)
            <= (other.numerator as int) * (self.denominator as int)
    }

    /// Compares two ratios with positive denominators without rounding.
    pub fn le(&self, other: &Ratio) -> (r: bool)
        ensures
            r == self.spec_le(*other),
    {
        let a = self.numerator as u128;
        let b = other.denominator as u128;
        let c = other.numerator as u128;
        let d = self.denominator as u128;
        proof {
            assert(a * b <= u64::MAX * u64::MAX) by (nonlinear_arith)
                requires
                    a <= u64::MAX,
                    b <= u64::MAX,
            ;
            assert(c * d <= u64::MAX * u64::MAX) by (nonlinear_arith)
                requires
                    c <= u64::MAX,
                    d <= u64::MAX,
            ;
        }
        a * b <= c * d
    }
}

/// What a result holds, as plain values.
pub struct ResultView {
    pub image_name: Seq<char>,
    pub pre_size: u64,
    pub post_size: u64,
    pub compress_elapsed_ms: u64,
    pub decompress_elapsed_ms: u64,
}

/// The compression ratio of a result, `pre_size / post_size`.
pub open spec fn ratio_of(r: ResultView) -> Ratio {
    Ratio { numerator: r.pre_size, denominator: r.post_size }
}

/// The measured outcome of one job. Its compressed size is never zero, so
/// its compression ratio is always defined.
pub struct CompressionResult {
    image_name: String,
    pre_size: u64,
    post_size: u64,
    compress_elapsed_ms: u64,
    decompress_elapsed_ms: u64,
}

impl View for CompressionResult {
    type V = ResultView;

    closed spec fn view(&self) -> ResultView {
        ResultView {
            image_name: self.image_name@,
            pre_size: self.pre_size,
            post_size: self.post_size,
            compress_elapsed_ms: self.compress_elapsed_ms,
            decompress_elapsed_ms: self.decompress_elapsed_ms,
        }
    }
}

/// The outcome that sizes and timings read for a job lead to: the first
/// unreadable size, in the order source then compressed, is the failure;
/// an empty compressed artifact is a failure; otherwise a result.
pub open spec fn measure_spec(
    image_name: Seq<char>,
    source_size: Option<u64>,
    compressed_size: Option<u64>,
    compress_elapsed_ms: u64,
    decompress_elapsed_ms: u64,
) -> Result<ResultView, JobFailure> {
    match (source_size, compressed_size) {
        (None, _) => Err(JobFailure::SourceSizeUnreadable),
        (Some(_), None) => Err(JobFailure::CompressedSizeUnreadable),
        (Some(pre), Some(post)) => if post == 0 {
            Err(JobFailure::EmptyCompressedOutput)
        } else {
            Ok(
                ResultView {
                    image_name,
                    pre_size: pre,
                    post_size: post,
                    compress_elapsed_ms,
                    decompress_elapsed_ms,
                },
            )
        },
    }
}

impl CompressionResult {
    #[verifier::type_invariant]
    spec fn inv(&self) -> bool {
        self.post_size > 0
    }

    /// Builds the result of a job from the sizes read after both codec runs.
    pub fn measure(
        image_name: String,
        source_size: Option<u64>,
        compressed_size: Option<u64>,
        compress_elapsed_ms: u64,
        decompress_elapsed_ms: u64,
    ) -> (r: Result<CompressionResult, JobFailure>)
        ensures
            match (r, measure_spec(
                image_name@,
                source_size,
                compressed_size,
                compress_elapsed_ms,
                decompress_elapsed_ms,
            )) {
                (Ok(res), Ok(v)) => res@ == v,
                (Err(e), Err(f)) => e == f,
                _ => false,
            },
    {
        match (source_size, compressed_size) {
            (None, _) => Err(JobFailure::SourceSizeUnreadable),
            (Some(_), None) => Err(JobFailure::CompressedSizeUnreadable),
            (Some(pre), Some(post)) => {
                if post == 0 {
                    Err(JobFailure::EmptyCompressedOutput)
                } else {
                    Ok(
                        CompressionResult {
                            image_name,
                            pre_size: pre,
                            post_size: post,
                            compress_elapsed_ms,
                            decompress_elapsed_ms,
                        },
                    )
                }
            },
        }
    }

    pub fn image_name(&self) -> (r: &String)
        ensures
            r@ == self@.image_name,
    {
        &self.image_name
    }

    /// Byte size of the source bitmap.
    pub fn pre_size(&self) -> (r: u64)
        ensures
            r == self@.pre_size,
    {
        self.pre_size
    }

    /// Byte size of the compressed artifact; never zero.
    pub fn post_size(&self) -> (r: u64)
        ensures
            r == self@.post_size,
            r > 0,
    {
        proof {
            use_type_invariant(self);
        }
        self.post_size
    }

    pub fn compress_elapsed_ms(&self) -> (r: u64)
        ensures
            r == self@.compress_elapsed_ms,
    {
        self.compress_elapsed_ms
    }

    pub fn decompress_elapsed_ms(&self) -> (r: u64)
        ensures
            r == self@.decompress_elapsed_ms,
    {
        self.decompress_elapsed_ms
    }

    /// `pre_size / post_size`, exactly.
    pub fn compression_ratio(&self) -> (r: Ratio)
        ensures
            r == ratio_of(self@),
            r.denominator > 0,
    {
        Ratio { numerator: self.pre_size, denominator: self.post_size() }
    }

    pub fn clone(&self) -> (r: CompressionResult)
        ensures
            r@ == self@,
    {
        proof {
            use_type_invariant(self);
        }
        CompressionResult {
            image_name: self.image_name.clone(),
            pre_size: self.pre_size,
            post_size: self.post_size,
            compress_elapsed_ms: self.compress_elapsed_ms,
            decompress_elapsed_ms: self.decompress_elapsed_ms,
        }
    }
}

/// Whole milliseconds of a duration given as seconds and sub-second
/// milliseconds, saturating at the largest `u64`.
pub open spec fn elapsed_ms_spec(secs: u64, subsec_millis: u32) -> int {
    let total = (secs as int) * 1000 + (subsec_millis as int);
    if total > u64::MAX {
        u64::MAX as int
    } else {
        total
    }
}

pub fn elapsed_ms(secs: u64, subsec_millis: u32) -> (r: u64)
    ensures
        r as int == elapsed_ms_spec(secs, subsec_millis),
{
    let total: u128 = (secs as u128) * 1000 + (subsec_millis as u128);
    if total > u64::MAX as u128 {
        u64::MAX
    } else {
        total as u64
    }
}

} // verus!
