//! The HTTP status codes that the service answers with, and the classes of
//! the codes that it receives.
use vstd::prelude::*;

verus! {

pub const OK: u16 = 200;

pub const CREATED: u16 = 201;

pub const ACCEPTED: u16 = 202;

pub const NO_CONTENT: u16 = 204;

pub const BAD_REQUEST: u16 = 400;

pub const FORBIDDEN: u16 = 403;

pub const NOT_FOUND: u16 = 404;

pub const CONFLICT: u16 = 409;

pub const UNPROCESSABLE_ENTITY: u16 = 422;

pub const INTERNAL_SERVER_ERROR: u16 = 500;

pub const BAD_GATEWAY: u16 = 502;

/// A code from 200 to 299.
pub open spec fn success(code: int) -> bool {
    200 <= code <= 299
}

/// A code from 400 to 499.
pub open spec fn client_error(code: int) -> bool {
    400 <= code <= 499
}

pub fn is_success(code: u16) -> (r: bool)
    ensures
        r == success(code as int),
{
    200 <= code && code <= 299
}

pub fn is_client_error(code: u16) -> (r: bool)
    ensures
        r == client_error(code as int),
{
    400 <= code && code <= 499
}

} // verus!
