//! The endpoint resolver: derives the daemon's socket path from two
//! environment values and validates it.
//!
//! The path is `<runtime_dir>/hypr/<instance_signature>/.pyprland.sock`.
//! Both environment values must be present and non-empty, and the whole
//! path must fit in the fixed-size buffer a Unix domain socket address can
//! hold, so its byte length must stay below [`MAX_ENDPOINT_LEN`].  The
//! caller reads the two values from the process environment and hands them
//! in, so the resolver itself touches no ambient state.

use vstd::prelude::*;
use crate::bytes::append_bytes;
use crate::errors::EnvironmentError;

verus! {

/// Smallest byte length that no longer fits a socket address.
pub const MAX_ENDPOINT_LEN: usize = 256;

/// The path segment between the runtime directory and the instance
/// signature: `/hypr/`.
pub open spec fn hypr_segment() -> Seq<u8> {
    seq![47u8, 104u8, 121u8, 112u8, 114u8, 47u8]
}

/// The final path segment naming the socket file: `/.pyprland.sock`.
pub open spec fn socket_file_segment() -> Seq<u8> {
    seq![
        47u8,
        46u8,
        112u8,
        121u8,
        112u8,
        114u8,
        108u8,
        97u8,
        110u8,
        100u8,
        46u8,
        115u8,
        111u8,
        99u8,
        107u8,
    ]
}

/// The endpoint path derived from a runtime directory and an instance
/// signature.
pub open spec fn endpoint_path(runtime_dir: Seq<u8>, signature: Seq<u8>) -> Seq<u8> {
    runtime_dir + hypr_segment() + signature + socket_file_segment()
}

/// Holds when an environment value is present and non-empty.
pub open spec fn env_value_ok(v: Option<Vec<u8>>) -> bool {
    v is Some && v->Some_0@.len() > 0
}

/// Appends `/hypr/` to `dst`.
fn push_hypr_segment(dst: &mut Vec<u8>)
    ensures
        final(dst)@ == old(dst)@ + hypr_segment(),
{
    dst.push(47);
    dst.push(104);
    dst.push(121);
    dst.push(112);
    dst.push(114);
    dst.push(47);
    proof {
        assert(dst@ =~= old(dst)@ + hypr_segment());
    }
}

/// Appends `/.pyprland.sock` to `dst`.
fn push_socket_file_segment(dst: &mut Vec<u8>)
    ensures
        final(dst)@ == old(dst)@ + socket_file_segment(),
{
    dst.push(47);
    dst.push(46);
    dst.push(112);
    dst.push(121);
    dst.push(112);
    dst.push(114);
    dst.push(108);
    dst.push(97);
    dst.push(110);
    dst.push(100);
    dst.push(46);
    dst.push(115);
    dst.push(111);
    dst.push(99);
    dst.push(107);
    proof {
        assert(dst@ =~= old(dst)@ + socket_file_segment());
    }
}

/// Resolves the socket endpoint from the two environment values.
///
/// Fails with [`EnvironmentError::MissingVariable`] when either value is
/// unset or empty, and with [`EnvironmentError::PathTooLong`] when the
/// derived path would not fit a socket address.  On success the returned
/// path is exactly the concatenation
/// `<runtime_dir>/hypr/<signature>/.pyprland.sock`.
pub fn resolve_endpoint(runtime_dir: &Option<Vec<u8>>, signature: &Option<Vec<u8>>) -> (r: Result<
    Vec<u8>,
    EnvironmentError,
>)
    ensures
        !env_value_ok(*runtime_dir) || !env_value_ok(*signature) ==> (r matches Err(
            EnvironmentError::MissingVariable,
        )),
        env_value_ok(*runtime_dir) && env_value_ok(*signature) && endpoint_path(
            runtime_dir->Some_0@,
            signature->Some_0@,
        ).len() < MAX_ENDPOINT_LEN ==> r is Ok,
        match r {
            Ok(path) => {
                &&& env_value_ok(*runtime_dir)
                &&& env_value_ok(*signature)
                &&& path@ == endpoint_path(runtime_dir->Some_0@, signature->Some_0@)
                &&& path@.len() < MAX_ENDPOINT_LEN
            },
            Err(e) => match e {
                EnvironmentError::MissingVariable => !env_value_ok(*runtime_dir) || !env_value_ok(
                    *signature,
                ),
                EnvironmentError::PathTooLong => {
                    &&& env_value_ok(*runtime_dir)
                    &&& env_value_ok(*signature)
                    &&& endpoint_path(runtime_dir->Some_0@, signature->Some_0@).len()
                        >= MAX_ENDPOINT_LEN
                },
            },
        },
{
    let (rd, sig) = match (runtime_dir, signature) {
        (Some(rd), Some(sig)) => {
            if rd.len() == 0 || sig.len() == 0 {
                return Err(EnvironmentError::MissingVariable);
            }
            (rd, sig)
        },
        _ => {
            return Err(EnvironmentError::MissingVariable);
        },
    };
    let mut path: Vec<u8> = Vec::new();
    append_bytes(&mut path, rd);
    push_hypr_segment(&mut path);
    append_bytes(&mut path, sig);
    push_socket_file_segment(&mut path);
    proof {
        assert(path@ =~= endpoint_path(rd@, sig@));
    }
    if path.len() >= MAX_ENDPOINT_LEN {
        return Err(EnvironmentError::PathTooLong);
    }
    Ok(path)
}

} // verus!
