//! Request-envelope construction and the status unifier applied at every
//! call boundary before any payload is inspected.

use vstd::prelude::*;

use crate::common::{ErrorCode, MsgBase, MsgType, Status};
use crate::common::{msg_type_to_i32, msg_type_value, spec_error_code_from};
use crate::common::error_code_from_i32;
use crate::error::Error;

verus! {

/// A fresh request envelope: the given message type, every other field zero.
pub fn new_msg(mtype: MsgType) -> (r: MsgBase)
    ensures
        r.msg_type as int == msg_type_value(mtype),
        r.msg_id == 0,
        r.timestamp == 0,
        r.source_id == 0,
{
    MsgBase { msg_type: msg_type_to_i32(mtype), msg_id: 0, timestamp: 0, source_id: 0 }
}

/// What the status unifier yields for a given optional status:
/// no status at all is `Unknown`; a recognized `Success` code is success;
/// any other recognized code is `Server` with that code and the original
/// reason string; an unrecognized code is `Unknown`.
pub open spec fn spec_status_result(status: Option<Status>) -> Result<(), Error> {
    match status {
        None => Err(Error::Unknown),
        Some(s) => match spec_error_code_from(s.error_code as int) {
            None => Err(Error::Unknown),
            Some(c) => if c == ErrorCode::Success {
                Ok(())
            } else {
                Err(Error::Server(c, s.reason))
            },
        },
    }
}

/// Normalize a server status into the unified result, exactly as
/// `spec_status_result` describes. Applied at every call boundary before
/// any response payload is touched, so no caller ever reads the body of a
/// failed call.
pub fn status_to_result(status: Option<Status>) -> (r: Result<(), Error>)
    ensures
        r == spec_status_result(status),
{
    match status {
        None => Err(Error::Unknown),
        Some(s) => match error_code_from_i32(s.error_code) {
            None => Err(Error::Unknown),
            Some(c) => match c {
                ErrorCode::Success => Ok(()),
                _ => Err(Error::Server(c, s.reason)),
            },
        },
    }
}

} // verus!
