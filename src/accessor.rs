use vstd::prelude::*;

use crate::action::tcx_pass;

verus! {

/// Whether `len` bytes starting at `offset` lie inside a buffer of `buf_len` bytes.
pub open spec fn in_bounds(buf_len: int, offset: int, len: int) -> bool {
    offset + len <= buf_len
}

/// A read-only view of `len` bytes of `buf` at `offset`.
///
/// The range is checked against the end of the buffer before anything is
/// read; a range that runs past it gives `Err` with the pass code, which
/// callers treat as a pass decision.
pub fn ptr_at(buf: &[u8], offset: usize, len: usize) -> (r: Result<&[u8], i64>)
    ensures
        r is Ok <==> in_bounds(buf@.len() as int, offset as int, len as int),
        r matches Ok(v) ==> v@ == buf@.subrange(offset as int, offset + len),
        r matches Err(e) ==> e == 0,
{
    if offset > buf.len() || len > buf.len() - offset {
        return Err(tcx_pass() as i64);
    }
    Ok(vstd::slice::slice_subrange(buf, offset, offset + len))
}

} // verus!
