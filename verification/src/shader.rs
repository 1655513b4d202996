//! Shader-build bookkeeping: reading the status the driver reports for
//! each build stage, and handling the info-log buffer it fills.
//!
//! Building the shader program runs four stages in order — compiling the
//! vertex shader, compiling the fragment shader, linking, validating —
//! and after each one queries an integer status. A failed stage has its
//! info log fetched into a byte buffer and shown; the log arrives as a
//! NUL-terminated C string.

use vstd::prelude::*;

verus! {

/// The status value the driver stores for a stage that succeeded.
pub const STATUS_OK: i32 = 1;

/// Reads a compile, link or validate status: any value other than the
/// success value means the stage failed and its info log must be shown.
pub fn stage_failed(status: i32) -> (r: bool)
    ensures
        r == (status != STATUS_OK),
{
    status != STATUS_OK
}

/// Builds the zeroed buffer that receives an info log, sized to the
/// length the driver reported for it (terminator included).
pub fn log_buffer(len: i32) -> (v: Vec<i8>)
    requires
        0 <= len,
    ensures
        v@.len() == len as int,
        forall|i: int| 0 <= i < v@.len() ==> v@[i] == 0,
{
    let n = len as usize;
    let mut v: Vec<i8> = Vec::new();
    while v.len() < n
        invariant
            v@.len() <= n,
            forall|i: int| 0 <= i < v@.len() ==> v@[i] == 0,
        decreases n - v@.len(),
    {
        v.push(0);
    }
    v
}

/// The length of the C string at the start of the buffer: the index of
/// the first NUL byte, or `None` when the buffer holds no terminator
/// and reading it as a C string would run past its end.
pub fn terminated_len(buf: &Vec<i8>) -> (r: Option<usize>)
    ensures
        match r {
            Some(n) => n < buf@.len() && buf@[n as int] == 0
                && forall|j: int| 0 <= j < n ==> buf@[j] != 0,
            None => forall|j: int| 0 <= j < buf@.len() ==> buf@[j] != 0,
        },
{
    let mut idx: usize = 0;
    while idx < buf.len()
        invariant
            idx <= buf@.len(),
            forall|j: int| 0 <= j < idx ==> buf@[j] != 0,
        decreases buf@.len() - idx,
    {
        if buf[idx] == 0 {
            return Some(idx);
        }
        idx += 1;
    }
    None
}

} // verus!
