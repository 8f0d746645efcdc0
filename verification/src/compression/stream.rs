//! Decisions of streaming compression: how much a size-limited reader may
//! read, and how copied totals grow. The caller performs the reads and
//! writes and reports how many bytes moved.
use vstd::prelude::*;
use crate::compression::config::CompressionConfig;
use crate::compression::error::CompressionError;

verus! {

/// What a size-limited reader does with a read request.
#[derive(Debug, Clone, Copy, PartialEq, Eq, Structural)]
pub enum ReadPlan {
    /// The buffer is empty: report zero bytes.
    Nothing,
    /// The limit is reached: read one byte to see whether more follows.
    Probe,
    /// Read at most this many bytes.
    UpTo(usize),
}

/// A reader over decompressed bytes that enforces a size limit.
///
/// It forwards reads to the inner reader, never asking for more than the
/// limit leaves, and once the limit is reached reports any further byte as
/// a `DecompressedSizeLimitExceeded` error.
#[derive(Debug)]
pub struct LimitedReader<R> {
    algorithm: &'static str,
    inner: R,
    limit: Option<usize>,
    read: usize,
}

/// The state of a size-limited reader: algorithm name, limit and bytes read.
pub struct LimitedReaderView {
    pub algorithm: Seq<char>,
    pub limit: Option<usize>,
    pub read: usize,
}

impl<R> View for LimitedReader<R> {
    type V = LimitedReaderView;

    closed spec fn view(&self) -> LimitedReaderView {
        LimitedReaderView { algorithm: self.algorithm@, limit: self.limit, read: self.read }
    }
}

/// The plan for a read request of `buf_len` bytes.
pub open spec fn read_plan(s: LimitedReaderView, buf_len: usize) -> ReadPlan {
    if buf_len == 0 {
        ReadPlan::Nothing
    } else {
        match s.limit {
            Some(l) => if s.read >= l {
                ReadPlan::Probe
            } else {
                ReadPlan::UpTo(if buf_len < l - s.read { buf_len } else { (l - s.read) as usize })
            },
            None => ReadPlan::UpTo(buf_len),
        }
    }
}

/// `a + b`, or `usize::MAX` when that does not fit.
pub open spec fn saturating_sum(a: usize, b: usize) -> usize {
    if a + b > usize::MAX { usize::MAX } else { (a + b) as usize }
}

impl<R> LimitedReader<R> {
    /// A limited reader over `inner` with the configured limit, nothing read yet.
    pub fn new(algorithm: &'static str, inner: R, config: CompressionConfig) -> (r: Self)
        ensures
            r@ == (LimitedReaderView {
                algorithm: algorithm@,
                limit: config.max_decompressed_size,
                read: 0,
            }),
            r.inner_spec() == inner,
    {
        LimitedReader { algorithm, inner, limit: config.max_decompressed_size, read: 0 }
    }

    /// The inner reader.
    pub closed spec fn inner_spec(&self) -> R {
        self.inner
    }

    /// The inner reader, to read from.
    pub fn inner_mut(&mut self) -> (r: &mut R)
        ensures
            *r == old(self).inner_spec(),
            final(self)@ == old(self)@,
            final(self).inner_spec() == *final(r),
    {
        &mut self.inner
    }

    /// What to do with a read request of `buf_len` bytes. Reads never take
    /// the total past the limit.
    pub fn plan(&self, buf_len: usize) -> (p: ReadPlan)
        ensures
            p == read_plan(self@, buf_len),
            p matches ReadPlan::UpTo(n) ==> n <= buf_len && (self@.limit matches Some(l) ==> self@.read
                + n <= l),
    {
        if buf_len == 0 {
            return ReadPlan::Nothing;
        }
        match self.limit {
            Some(limit) => if self.read >= limit {
                ReadPlan::Probe
            } else {
                let room = limit - self.read;
                ReadPlan::UpTo(if buf_len < room { buf_len } else { room })
            },
            None => ReadPlan::UpTo(buf_len),
        }
    }

    /// Records `n` bytes read from the inner reader.
    pub fn record(&mut self, n: usize)
        ensures
            final(self)@ == (LimitedReaderView { read: saturating_sum(old(self)@.read, n), ..old(self)@ }),
            final(self).inner_spec() == old(self).inner_spec(),
    {
        self.read = self.read.saturating_add(n);
    }

    /// What a probe of `n` bytes past the limit means: nothing more when
    /// `n` is zero, otherwise the limit is exceeded.
    pub fn probe_outcome(&self, n: usize) -> (r: Result<(), CompressionError>)
        ensures
            n == 0 ==> r is Ok,
            n > 0 ==> (r matches Err(
                CompressionError::DecompressedSizeLimitExceeded { algorithm, limit, actual },
            ) && algorithm@ == self@.algorithm && Some(limit) == self@.limit && actual
                == saturating_sum(self@.read, n)) || (self@.limit is None && r is Ok),
    {
        if n == 0 {
            return Ok(());
        }
        match self.limit {
            Some(limit) => Err(
                CompressionError::DecompressedSizeLimitExceeded {
                    algorithm: self.algorithm,
                    limit,
                    actual: self.read.saturating_add(n),
                },
            ),
            None => Ok(()),
        }
    }
}

/// `a + b` for `u64`, or `u64::MAX` when that does not fit.
pub open spec fn saturating_sum_u64(a: u64, b: u64) -> u64 {
    if a + b > u64::MAX { u64::MAX } else { (a + b) as u64 }
}

/// The total after `read` more plain bytes were copied into an encoder.
pub fn plain_copy_total(read_total: u64, read: usize) -> (r: u64)
    ensures
        r == saturating_sum_u64(read_total, read as u64),
{
    read_total.saturating_add(read as u64)
}

/// The total after `read` more decompressed bytes: refused with
/// `DecompressedSizeLimitExceeded` when it passes the limit, reported at
/// most as `usize::MAX`.
pub fn decompressed_copy_total(
    algorithm: &'static str,
    written: u64,
    read: usize,
    config: CompressionConfig,
) -> (r: Result<u64, CompressionError>)
    ensures
        ({
            let next = saturating_sum_u64(written, read as u64);
            match config.max_decompressed_size {
                Some(l) => if next > l {
                    r matches Err(
                        CompressionError::DecompressedSizeLimitExceeded { algorithm: a, limit, actual },
                    ) && a == algorithm && limit == l && actual == (if next > usize::MAX {
                        usize::MAX
                    } else {
                        next as usize
                    })
                } else {
                    r matches Ok(t) && t == next
                },
                None => r matches Ok(t) && t == next,
            }
        }),
{
    let next = written.saturating_add(read as u64);
    match config.max_decompressed_size {
        Some(limit) => if next > limit as u64 {
            let actual = if next > usize::MAX as u64 {
                usize::MAX
            } else {
                next as usize
            };
            Err(CompressionError::DecompressedSizeLimitExceeded { algorithm, limit, actual })
        } else {
            Ok(next)
        },
        None => Ok(next),
    }
}

} // verus!
