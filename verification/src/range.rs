//! The range validator and the content extractor: a requested byte range is
//! checked against a recording's declared size, and a validated range is
//! cut out of the file's bytes.

use crate::errors::AppError;
use vstd::prelude::*;

verus! {

/// A validated half-open interval `[start, end)` into a recording's bytes.
///
/// A validated range never starts at byte zero: reading from byte zero of
/// this audio encoding makes downstream players report the full-file
/// duration instead of the snippet's, so a requested start of zero is
/// silently bumped to one before validation.
#[derive(Clone, Copy, Debug, PartialEq, Eq, Structural)]
pub struct ByteRange {
    pub start: u32,
    pub end: u32,
}

impl ByteRange {
    pub open spec fn wf(self) -> bool {
        1 <= self.start <= self.end
    }

    /// How many bytes the range covers.
    pub open spec fn width(self) -> int {
        self.end - self.start
    }
}

/// A requested start of zero counts as one (see `ByteRange`).
pub open spec fn bumped(start: u32) -> u32 {
    if start == 0 {
        1u32
    } else {
        start
    }
}

/// A request is valid exactly when, after the zero-bump, it lies within the
/// recording: `1 <= start <= end <= file_size`.
pub open spec fn range_ok(start: u32, end: u32, file_size: u32) -> bool {
    bumped(start) <= end && end <= file_size
}

/// Validates a requested `(start, end)` pair against a recording's declared
/// size.  A start of zero is first bumped to one; the request is then
/// rejected exactly when the start lies past the end or the end lies past
/// the file.
pub fn validate_range(start: u32, end: u32, file_size: u32) -> (r: Result<ByteRange, AppError>)
    ensures
        r is Ok <==> range_ok(start, end, file_size),
        range_ok(start, end, file_size) ==> r == Ok::<ByteRange, AppError>(
            (ByteRange { start: bumped(start), end }),
        ),
        !range_ok(start, end, file_size) ==> r == Err::<ByteRange, AppError>(
            AppError::InvalidRange,
        ),
        r is Ok ==> r->Ok_0.wf() && r->Ok_0.end <= file_size,
{
    let start: u32 = if start == 0 {
        1
    } else {
        start
    };
    if start > end {
        Err(AppError::InvalidRange)
    } else if end > file_size {
        Err(AppError::InvalidRange)
    } else {
        Ok(ByteRange { start, end })
    }
}

/// Returns exactly the bytes `[start, end)` of a recording's content.
///
/// The caller supplies the whole file as bytes and a validated range that
/// lies within them; the upper bound is exclusive, so the byte at index
/// `end` is not included and the result has `end - start` bytes.
pub fn extract_range(content: &Vec<u8>, range: &ByteRange) -> (r: Vec<u8>)
    requires
        range.start <= range.end,
        range.end <= content.len(),
    ensures
        r@ == content@.subrange(range.start as int, range.end as int),
        r@.len() == range.width(),
{
    let mut r: Vec<u8> = Vec::new();
    let mut i: usize = range.start as usize;
    let end: usize = range.end as usize;
    while i < end
        invariant
            range.start <= i <= end,
            end == range.end,
            end <= content.len(),
            r@ == content@.subrange(range.start as int, i as int),
        decreases end - i,
    {
        r.push(content[i]);
        proof {
            assert(content@.subrange(range.start as int, i + 1) =~= content@.subrange(
                range.start as int,
                i as int,
            ).push(content@[i as int]));
        }
        i += 1;
    }
    r
}

} // verus!
