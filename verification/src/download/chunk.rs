//! Ranged transfers: how a file of known length is cut into chunks.

use vstd::prelude::*;
use crate::decimal::{decimal_digits, push_decimal};
use crate::download::retry::AfterAttempt;
use crate::error::Error;
use crate::text::{lower_seq, push_str, str_eq, string_of, to_ascii_lowercase};

verus! {

/// Into how many chunks a file of `length` bytes is cut: one up to 4 MB;
/// one more than the number of whole 2 MB below 30 MB, of whole 4 MB up to
/// 100 MB, and of whole 10 MB above. A megabyte is a million bytes. A file
/// without bytes has no chunks.
pub open spec fn chunk_count(length: u64) -> int {
    if length == 0 {
        0
    } else if length <= 4_000_000 {
        1
    } else if length < 30_000_000 {
        length / 2_000_000 + 1
    } else if length <= 100_000_000 {
        length / 4_000_000 + 1
    } else {
        length / 10_000_000 + 1
    }
}

/// The length of every chunk but the last.
pub open spec fn chunk_size(length: u64) -> int {
    if length == 0 {
        0
    } else {
        length as int / chunk_count(length)
    }
}

/// The first and the last byte of chunk `i`. The last chunk takes what the
/// division leaves over.
pub open spec fn chunk_range(length: u64, i: int) -> (int, int) {
    if i == chunk_count(length) - 1 {
        (i * chunk_size(length), length - 1)
    } else {
        (i * chunk_size(length), (i + 1) * chunk_size(length) - 1)
    }
}

/// Chunks are at least a byte long and no longer than the file.
pub proof fn lemma_chunk_size(length: u64)
    requires
        length >= 1,
    ensures
        1 <= chunk_count(length) <= length,
        1 <= chunk_size(length),
        chunk_size(length) * chunk_count(length) <= length,
{
    let count = chunk_count(length);
    let size = chunk_size(length);
    assert(1 <= count <= length);
    assert(size * count <= length && size >= 1) by (nonlinear_arith)
        requires
            1 <= count <= length,
            size == length as int / count,
    ;
}

/// The byte ranges of the chunks of a file of `length` bytes. They follow
/// one another without gap or overlap and cover the file.
pub fn calculate_chunks_length(length: u64) -> (r: Vec<(u64, u64)>)
    ensures
        r@.len() == chunk_count(length),
        forall|i: int|
            0 <= i < r@.len() ==> (#[trigger] r@[i]).0 == chunk_range(length, i).0 && r@[i].1
                == chunk_range(length, i).1,
        length >= 1 ==> r@[0].0 == 0 && r@[r@.len() - 1].1 == length - 1,
        forall|i: int| 0 <= i < r@.len() ==> (#[trigger] r@[i]).0 <= r@[i].1,
        forall|i: int| 0 <= i < r@.len() - 1 ==> (#[trigger] r@[i + 1]).0 == r@[i].1 + 1,
{
    if length == 0 {
        return Vec::new();
    }
    let count: u64 = if length <= 4_000_000 {
        1
    } else if length < 30_000_000 {
        length / 2_000_000 + 1
    } else if length <= 100_000_000 {
        length / 4_000_000 + 1
    } else {
        length / 10_000_000 + 1
    };
    proof {
        lemma_chunk_size(length);
    }
    let size: u64 = length / count;
    let mut chunks: Vec<(u64, u64)> = Vec::new();
    let mut i: u64 = 0;
    let mut start: u64 = 0;
    while i < count
        invariant
            i <= count,
            count == chunk_count(length),
            size == chunk_size(length),
            size >= 1,
            size * count <= length,
            start == i * size,
            chunks@.len() == i,
            forall|k: int|
                0 <= k < i ==> (#[trigger] chunks@[k]).0 == chunk_range(length, k).0
                    && chunks@[k].1 == chunk_range(length, k).1,
        decreases count - i,
    {
        proof {
            assert((i + 1) * size == i * size + size) by (nonlinear_arith);
            assert((i + 1) * size <= count * size) by (nonlinear_arith)
                requires
                    i + 1 <= count,
                    size >= 0,
            ;
            assert(count * size == size * count) by (nonlinear_arith);
        }
        if i == count - 1 {
            chunks.push((start, length - 1));
        } else {
            chunks.push((start, start + size - 1));
        }
        start = start + size;
        i += 1;
    }
    proof {
        assert forall|k: int| 0 <= k < chunks@.len() implies (#[trigger] chunks@[k]).0
            <= chunks@[k].1 by {
            assert((k + 1) * size == k * size + size) by (nonlinear_arith);
            assert((k + 1) * size <= count * size) by (nonlinear_arith)
                requires
                    k + 1 <= count,
                    size >= 0,
            ;
            assert(chunks@[k].0 == chunk_range(length, k).0);
            assert(chunks@[k].1 == chunk_range(length, k).1);
            assert(count * size == size * count) by (nonlinear_arith);
            assert(k * size <= length - 1);
        }
        assert forall|k: int| 0 <= k < chunks@.len() - 1 implies (#[trigger] chunks@[k + 1]).0
            == chunks@[k].1 + 1 by {
            assert((k + 1) * size == k * size + size) by (nonlinear_arith);
        }
        assert(0 * size == 0) by (nonlinear_arith);
    }
    chunks
}

/// The `Range` header value for a chunk: `bytes=lo-hi`.
pub open spec fn range_header_of(lo: u64, hi: u64) -> Seq<char> {
    "bytes="@ + decimal_digits(lo as nat) + "-"@ + decimal_digits(hi as nat)
}

/// The value of the `Range` header that asks for the bytes `lo` to `hi`.
pub fn range_header(range: (u64, u64)) -> (r: String)
    ensures
        r@ == range_header_of(range.0, range.1),
{
    let mut out: Vec<char> = Vec::new();
    push_str(&mut out, "bytes=");
    push_decimal(&mut out, range.0);
    push_str(&mut out, "-");
    push_decimal(&mut out, range.1);
    string_of(&out)
}

/// Whether a ranged transfer delivered exactly the bytes that were asked
/// for; the error where it did not, and for a range that ends before it
/// begins.
pub fn check_chunk_length(range: (u64, u64), received: u64) -> (r: Result<(), Error>)
    ensures
        r is Ok <==> range.0 <= range.1 && received == range.1 - range.0 + 1,
        r matches Err(e) ==> e is ChunkLengthMismatch,
{
    if range.0 > range.1 {
        return Err(Error::ChunkLengthMismatch);
    }
    let wanted = range.1 - range.0;
    if received > 0 && received - 1 == wanted {
        Ok(())
    } else {
        Err(Error::ChunkLengthMismatch)
    }
}

/// Whether an `Accept-Ranges` header value allows ranged transfers: it is
/// `bytes`, in any case of letters.
pub fn accepts_byte_ranges(header: &str) -> (r: bool)
    ensures
        r == (lower_seq(header@) == "bytes"@),
{
    let lower = to_ascii_lowercase(header);
    str_eq(lower.as_str(), "bytes")
}

/// The length to cut into chunks, where a file is fetched in ranges: the
/// task states a size of at least one byte and the server is known to
/// allow ranges. A file without bytes is fetched in one piece.
pub fn ranged_length(size_bytes: Option<u64>, accept_ranges: Option<bool>) -> (r: Option<u64>)
    ensures
        r == (match size_bytes {
            Some(length) => if accept_ranges == Some(true) && length >= 1 {
                Some(length)
            } else {
                None
            },
            None => None,
        }),
{
    match size_bytes {
        Some(length) => match accept_ranges {
            Some(true) => if length >= 1 {
                Some(length)
            } else {
                None
            },
            _ => None,
        },
        None => None,
    }
}

/// How often one chunk is tried before the file counts as failed.
pub fn chunk_attempts() -> (r: u32)
    ensures
        r == 10,
{
    10
}

/// How to go on after an attempt at one chunk, the `tried`-th: a success
/// ends the chunk; after a failure the chunk is tried again unless ten
/// attempts have been made, and then the file has failed.
pub fn after_chunk_attempt(tried: u32, succeeded: bool) -> (r: AfterAttempt)
    ensures
        r == (if succeeded {
            AfterAttempt::Done
        } else if tried >= 10 {
            AfterAttempt::GiveUp
        } else {
            AfterAttempt::Retry
        }),
{
    if succeeded {
        AfterAttempt::Done
    } else if tried >= chunk_attempts() {
        AfterAttempt::GiveUp
    } else {
        AfterAttempt::Retry
    }
}

/// How many chunks of one file are in transfer at once.
pub fn chunk_workers() -> (r: usize)
    ensures
        r == 4,
{
    4
}

} // verus!
