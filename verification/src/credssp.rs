//! The tail of the CredSSP phase: the early user authentication result
//! message read in extended hybrid mode, whose denial terminates the whole
//! sequence. The CredSSP token exchange itself runs at the caller's edge;
//! only this decision reaches the sequence.

use vstd::prelude::*;
use crate::bytes::{read_u32_le, spec_read_u32_le};
use crate::error::RdpError;

verus! {

/// The authorization code reporting success.
pub const EARLY_USER_AUTH_SUCCESS: u32 = 0;

/// The authorization code reporting denied access.
pub const EARLY_USER_AUTH_ACCESS_DENIED: u32 = 5;

/// Reads the early user authentication result: a four-byte little-endian
/// authorization code. `Some(true)` for success, `Some(false)` for denied
/// access, `None` for any other length or code.
pub open spec fn spec_early_user_auth_allowed(b: Seq<u8>) -> Option<bool> {
    if b.len() == 4 {
        if spec_read_u32_le(b[0], b[1], b[2], b[3]) == EARLY_USER_AUTH_SUCCESS {
            Some(true)
        } else if spec_read_u32_le(b[0], b[1], b[2], b[3]) == EARLY_USER_AUTH_ACCESS_DENIED {
            Some(false)
        } else {
            None
        }
    } else {
        None
    }
}

/// Parses the early user authentication result message. `Ok(true)` when
/// the server authorized the user, `Ok(false)` when it denied access —
/// a successful exchange reporting an authorization failure — and the
/// dedicated result-message error for any other shape or code.
pub fn process_early_user_auth_result(bytes: &Vec<u8>) -> (r: Result<bool, RdpError>)
    ensures
        match r {
            Ok(allowed) => spec_early_user_auth_allowed(bytes@) == Some(allowed),
            Err(e) => spec_early_user_auth_allowed(bytes@) is None && e
                == RdpError::EarlyUserAuthResultError,
        },
{
    if bytes.len() != 4 {
        return Err(RdpError::EarlyUserAuthResultError);
    }
    let code: u32 = read_u32_le(bytes, 0);
    if code == EARLY_USER_AUTH_SUCCESS {
        Ok(true)
    } else if code == EARLY_USER_AUTH_ACCESS_DENIED {
        Ok(false)
    } else {
        Err(RdpError::EarlyUserAuthResultError)
    }
}

} // verus!
