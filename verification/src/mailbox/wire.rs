//! The layout of a property-tag buffer and the scan of its records.
//!
//! A buffer is a sequence of words: its size in bytes, a code, the tag
//! records, and a zero word that ends them. A record is the tag's id, the
//! size of its payload in bytes, a code, and the payload.

use vstd::prelude::*;
use vstd::slice::slice_subrange;

verus! {

/// Code word of a request.
pub const REQUEST: u32 = 0;

/// Code word of a response that the firmware accepted.
pub const SUCCESS: u32 = 0x8000_0000;

/// Code word of a response that the firmware rejected.
pub const FAILURE: u32 = 0x8000_0001;

/// The word that ends the tag records.
pub const END: u32 = 0;

/// Words before the first tag record: total size and code.
pub const HEADER_WORDS: usize = 2;

/// Words of a tag record before its payload: id, payload size in bytes, code.
pub const RECORD_WORDS: usize = 3;

/// The largest buffer, in words, whose size in bytes fits the size word.
pub const MAX_BUFFER_WORDS: usize = 0x3fff_ffff;

/// The largest payload, in words, whose size in bytes fits the size word.
pub const MAX_PAYLOAD_WORDS: usize = 0x3fff_ffff;

/// The offset of the first record with id `id` that a scan from `pos` meets.
///
/// The scan goes from record to record by the size word of each and stops,
/// with nothing found, at the terminator, at the end of the buffer, or at a
/// record that does not fit in the buffer.
pub open spec fn find(buffer: Seq<u32>, id: u32, pos: int) -> Option<int>
    decreases buffer.len() - pos,
{
    if pos < 0 || pos + RECORD_WORDS > buffer.len() || buffer[pos] == END {
        None
    } else if buffer[pos] == id {
        Some(pos)
    } else {
        let next = pos + RECORD_WORDS + buffer[pos + 1] / 4;
        if next > buffer.len() {
            None
        } else {
            find(buffer, id, next)
        }
    }
}

/// Whether `after` has, at every record that a scan of `before` from `pos`
/// passes, the id and the size that `before` has there, and the terminator
/// where that scan ends on one.
pub open spec fn same_records(before: Seq<u32>, after: Seq<u32>, pos: int) -> bool
    decreases before.len() - pos,
{
    if pos < 0 || pos >= before.len() {
        true
    } else if pos + RECORD_WORDS > before.len() || before[pos] == END {
        after[pos] == before[pos]
    } else {
        let next = pos + RECORD_WORDS + before[pos + 1] / 4;
        &&& after[pos] == before[pos]
        &&& after[pos + 1] == before[pos + 1]
        &&& next <= before.len() ==> same_records(before, after, next)
    }
}

/// The payload of `len` words of the record at `pos`, if the record says that
/// it holds exactly that many and they lie within the buffer.
pub open spec fn payload_at(buffer: Seq<u32>, pos: int, len: int) -> Option<Seq<u32>> {
    if 0 <= pos && 0 <= len && pos + RECORD_WORDS + len <= buffer.len() && buffer[pos + 1] == 4
        * len {
        Some(buffer.subrange(pos + RECORD_WORDS, pos + RECORD_WORDS + len))
    } else {
        None
    }
}

/// The payload of the first record with id `id` in a whole buffer, for a tag
/// of `len` payload words.
pub open spec fn located(buffer: Seq<u32>, id: u32, len: int) -> Option<Seq<u32>> {
    match find(buffer, id, HEADER_WORDS as int) {
        Some(pos) => payload_at(buffer, pos, len),
        None => None,
    }
}

/// Scans `buffer` for the record of the tag with id `id` and `len` payload
/// words and hands out its payload.
pub fn locate<'a>(buffer: &'a [u32], id: u32, len: usize) -> (r: Option<&'a [u32]>)
    ensures
        match r {
            Some(words) => located(buffer@, id, len as int) == Some(words@),
            None => located(buffer@, id, len as int) is None,
        },
{
    let n = buffer.len();
    let mut pos: usize = HEADER_WORDS;
    while pos < n
        invariant
            n == buffer@.len(),
            find(buffer@, id, HEADER_WORDS as int) == find(buffer@, id, pos as int),
        decreases n - pos,
    {
        if n - pos < RECORD_WORDS || buffer[pos] == END {
            return None;
        }
        let words: usize = (buffer[pos + 1] / 4) as usize;
        if buffer[pos] == id {
            if len <= n - pos - RECORD_WORDS && words == len && buffer[pos + 1] % 4 == 0 {
                return Some(slice_subrange(buffer, pos + RECORD_WORDS, pos + RECORD_WORDS + len));
            }
            return None;
        }
        if words > n - pos - RECORD_WORDS {
            return None;
        }
        pos = pos + RECORD_WORDS + words;
    }
    None
}

} // verus!
