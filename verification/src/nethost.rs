//! Locating the loader library on the system.
//!
//! The resolver export writes a wide path into a caller-supplied buffer of a
//! fixed maximum size and reports a status code.  The translation of that
//! outcome lives here; the call itself is the unverified driver's.

use vstd::prelude::*;
use vstd::slice::slice_subrange;

use crate::error::GetHostFxrError;
use crate::wide::decode_utf16_lossy;
use crate::wide::prefix_before_zero_wide;

verus! {

/// The fixed number of wide units the resolver's path buffer holds.
pub const MAX_PATH: usize = 4096;

/// The status with which the resolver reports that the path would not fit
/// the buffer (the hexadecimal form is 0x80008098).
pub const HOST_API_BUFFER_TOO_SMALL: i32 = -2147450728;

/// Translates what the resolver reported: the buffer-too-small status is
/// `InvalidBufferSize`, any other non-zero status is `Unexpected`, a written
/// length beyond the buffer is a decode failure, and otherwise the written
/// units are decoded up to their terminator.
pub fn get_hostfxr(code: i32, buf: &[u16], len: u64) -> (r: Result<String, GetHostFxrError>)
    ensures
        match r {
            Ok(path) => {
                &&& code == 0
                &&& len <= buf@.len()
                &&& path@ == decode_utf16_lossy(prefix_before_zero_wide(buf@.take(len as int)))
            },
            Err(e) => {
                ||| (e == GetHostFxrError::InvalidBufferSize && code == HOST_API_BUFFER_TOO_SMALL)
                ||| (e == GetHostFxrError::Unexpected(code) && code != 0 && code
                    != HOST_API_BUFFER_TOO_SMALL)
                ||| (e == GetHostFxrError::InvalidUtf16 && code == 0 && len > buf@.len())
            },
        },
{
    if code == HOST_API_BUFFER_TOO_SMALL {
        return Err(GetHostFxrError::InvalidBufferSize);
    }
    if code != 0 {
        return Err(GetHostFxrError::Unexpected(code));
    }
    if len > buf.len() as u64 {
        return Err(GetHostFxrError::InvalidUtf16);
    }
    let written = slice_subrange(buf, 0, len as usize);
    proof {
        assert(written@ =~= buf@.take(len as int));
    }
    Ok(crate::wide::decode_wide_c_string(written))
}

} // verus!
