//! Preparation of one complete request: everything an invocation decides
//! before the first system call, in the order the client checks it — the
//! command tokens first, the environment second.

use vstd::prelude::*;
use crate::endpoint::{endpoint_path, env_value_ok, resolve_endpoint, MAX_ENDPOINT_LEN};
use crate::errors::{ClientError, EnvironmentError, UsageError};
use crate::message::{build_message, views_of, wire_message, MAX_MESSAGE_LEN};

verus! {

/// A validated request, ready for the socket exchange: the wire message to
/// send and the endpoint path to connect to.
pub struct Request {
    /// The wire message, size-checked, newline-terminated.
    pub message: Vec<u8>,
    /// The resolved socket path, length-checked.
    pub socket_path: Vec<u8>,
}

/// Builds and validates the whole request from the command tokens and the
/// two environment values.
///
/// The tokens are checked before the environment, so an empty or oversized
/// command is reported as a usage error even when the environment is also
/// unusable.  On success the request carries exactly the wire message of
/// the tokens and exactly the endpoint path of the two values.
pub fn prepare_request(
    args: &Vec<Vec<u8>>,
    runtime_dir: &Option<Vec<u8>>,
    signature: &Option<Vec<u8>>,
) -> (r: Result<Request, ClientError>)
    ensures
        match r {
            Ok(req) => {
                &&& args@.len() > 0
                &&& req.message@ == wire_message(views_of(args@))
                &&& req.message@.len() <= MAX_MESSAGE_LEN
                &&& env_value_ok(*runtime_dir)
                &&& env_value_ok(*signature)
                &&& req.socket_path@ == endpoint_path(runtime_dir->Some_0@, signature->Some_0@)
                &&& req.socket_path@.len() < MAX_ENDPOINT_LEN
            },
            Err(e) => match e {
                ClientError::Usage(UsageError::NoCommand) => args@.len() == 0,
                ClientError::Usage(UsageError::MessageTooLong) => args@.len() > 0 && wire_message(
                    views_of(args@),
                ).len() > MAX_MESSAGE_LEN,
                ClientError::Environment(EnvironmentError::MissingVariable) => {
                    &&& args@.len() > 0
                    &&& wire_message(views_of(args@)).len() <= MAX_MESSAGE_LEN
                    &&& (!env_value_ok(*runtime_dir) || !env_value_ok(*signature))
                },
                ClientError::Environment(EnvironmentError::PathTooLong) => {
                    &&& args@.len() > 0
                    &&& wire_message(views_of(args@)).len() <= MAX_MESSAGE_LEN
                    &&& env_value_ok(*runtime_dir)
                    &&& env_value_ok(*signature)
                    &&& endpoint_path(runtime_dir->Some_0@, signature->Some_0@).len()
                        >= MAX_ENDPOINT_LEN
                },
                ClientError::Connection(_) => false,
            },
        },
{
    let message = match build_message(args) {
        Ok(m) => m,
        Err(e) => {
            return Err(ClientError::Usage(e));
        },
    };
    let socket_path = match resolve_endpoint(runtime_dir, signature) {
        Ok(p) => p,
        Err(e) => {
            return Err(ClientError::Environment(e));
        },
    };
    Ok(Request { message, socket_path })
}

} // verus!
