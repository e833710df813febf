//! The byte window that one read call hands back.

use vstd::prelude::*;
use vstd::slice::slice_subrange;

verus! {

/// The smaller of two numbers.
pub open spec fn spec_min(a: int, b: int) -> int {
    if a <= b {
        a
    } else {
        b
    }
}

/// Where a read of `read_size` bytes at `offset` ends in content of
/// `data_size` bytes: at the end of the content or after `read_size` bytes,
/// whichever comes first. A read that starts at or behind the end of the
/// content ends where it starts.
pub open spec fn spec_read_end(data_size: int, offset: int, read_size: int) -> int {
    if offset >= data_size {
        offset
    } else {
        offset + spec_min(data_size - offset, read_size)
    }
}

/// The bytes of `content` that a read of `size` bytes at `offset` gets. An
/// offset before the start or not before the end of the content gets none.
pub open spec fn spec_window(content: Seq<u8>, offset: int, size: int) -> Seq<u8> {
    if 0 <= offset < content.len() {
        content.subrange(offset, spec_read_end(content.len() as int, offset, size))
    } else {
        Seq::empty()
    }
}

/// The end of the window `[offset, end)` that a read of `read_size` bytes at
/// `offset` covers in content of `data_size` bytes.
///
/// Both the content's length and the offset have to fit `usize`, as the end
/// is an index into memory.
pub fn read_end(data_size: u64, offset: u64, read_size: u32) -> (end: usize)
    requires
        data_size <= usize::MAX,
        offset <= usize::MAX,
    ensures
        end == spec_read_end(data_size as int, offset as int, read_size as int),
        offset <= end,
        offset < data_size ==> end <= data_size,
{
    if offset >= data_size {
        offset as usize
    } else {
        let left: u64 = data_size - offset;
        let wanted: u64 = read_size as u64;
        let taken: u64 = if left <= wanted {
            left
        } else {
            wanted
        };
        (offset + taken) as usize
    }
}

/// The part of `content` that a read of `size` bytes at `offset` gets.
///
/// A read at or behind the end gets nothing; one that reaches over the end
/// gets what is left; any other gets `size` bytes.
pub fn read_window<'a>(content: &'a [u8], offset: i64, size: u32) -> (window: &'a [u8])
    ensures
        window@ == spec_window(content@, offset as int, size as int),
        offset >= content@.len() ==> window@.len() == 0,
        0 <= offset <= content@.len() && offset + size > content@.len() ==> window@.len()
            == content@.len() - offset,
        0 <= offset && offset + size <= content@.len() ==> window@.len() == size,
{
    if offset < 0 || offset as u64 >= content.len() as u64 {
        slice_subrange(content, 0, 0)
    } else {
        let end = read_end(content.len() as u64, offset as u64, size);
        slice_subrange(content, offset as usize, end)
    }
}

} // verus!
