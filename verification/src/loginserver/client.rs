//! Requests that a client sends once its payload is decrypted.

use vstd::prelude::*;
use vstd::slice::{slice_subrange, slice_to_vec};
use crate::error::ProtocolError;

verus! {

/// The opcode of a login request.
pub const LOGIN_REQUEST: u8 = 0x00;

/// Width in bytes of the user name field and of the password field.
pub const CREDENTIAL_LEN: usize = 14;

/// The user name and the password of a login request: the first fourteen
/// bytes behind the opcode and the fourteen after them, as they came.
pub open spec fn login_fields(request: Seq<u8>) -> (Seq<u8>, Seq<u8>)
    recommends
        request.len() >= 28,
{
    (request.subrange(0, 14), request.subrange(14, 28))
}

/// Takes the user name and the password out of the body of a login
/// request, or fails if the body is too short to hold both.
pub fn new_request_auth_login(request: Vec<u8>) -> (res: Result<(Vec<u8>, Vec<u8>), ProtocolError>)
    ensures
        match res {
            Ok((user_name, password)) => request@.len() >= 28 && (user_name@, password@)
                == login_fields(request@),
            Err(e) => request@.len() < 28 && e == ProtocolError::ShortRead,
        },
{
    if request.len() < 2 * CREDENTIAL_LEN {
        return Err(ProtocolError::ShortRead);
    }
    let user_name = slice_to_vec(slice_subrange(request.as_slice(), 0, CREDENTIAL_LEN));
    let password = slice_to_vec(
        slice_subrange(request.as_slice(), CREDENTIAL_LEN, 2 * CREDENTIAL_LEN),
    );
    Ok((user_name, password))
}

} // verus!
