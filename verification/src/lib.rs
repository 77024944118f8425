//! Client-side protocol logic for a compositor-control daemon reachable over
//! a local Unix domain socket.
//!
//! The crate covers the pure half of one client invocation: joining the
//! command tokens into a wire message with a size limit, deriving and
//! validating the socket endpoint path from two environment values,
//! classifying the daemon's reply into a tagged outcome, and mapping every
//! outcome and error to its exit code and output bytes.  The surrounding
//! process glue (reading the environment, the socket exchange itself,
//! printing) stays outside and hands plain byte values in and out.

pub mod bytes;
pub mod endpoint;
pub mod errors;
pub mod message;
pub mod request;
pub mod response;
