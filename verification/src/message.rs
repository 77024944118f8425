//! The message builder: joins the command tokens of one invocation into the
//! wire message and enforces the wire size limit.
//!
//! The wire message is the tokens joined with single ASCII spaces and
//! terminated by one newline.  Tokens pass through verbatim: no escaping or
//! quoting, so a token that itself contains a space cannot be carried
//! losslessly — the daemon re-splits on spaces.  A message longer than
//! [`MAX_MESSAGE_LEN`] bytes is rejected before any I/O could happen.

use vstd::prelude::*;
use crate::bytes::append_bytes;
use crate::errors::UsageError;

verus! {

/// ASCII space, the token separator on the wire.
pub const SPACE: u8 = 32;

/// ASCII newline, the wire message terminator.
pub const NEWLINE: u8 = 10;

/// Largest serialized message, terminator included, that may be sent.
pub const MAX_MESSAGE_LEN: usize = 1024;

/// The views of a vector of byte vectors, one sequence per token.
pub open spec fn views_of(args: Seq<Vec<u8>>) -> Seq<Seq<u8>> {
    args.map_values(|a: Vec<u8>| a@)
}

/// The tokens joined with a single space between consecutive tokens.
pub open spec fn join_spec(parts: Seq<Seq<u8>>) -> Seq<u8>
    decreases parts.len(),
{
    if parts.len() == 0 {
        Seq::empty()
    } else if parts.len() == 1 {
        parts[0]
    } else {
        join_spec(parts.drop_last()) + seq![SPACE] + parts.last()
    }
}

/// The complete wire message for a token sequence: the joined tokens
/// followed by one newline.
pub open spec fn wire_message(parts: Seq<Seq<u8>>) -> Seq<u8> {
    join_spec(parts) + seq![NEWLINE]
}

/// Joining one more token appends one space and that token.
proof fn lemma_join_push(parts: Seq<Seq<u8>>, x: Seq<u8>)
    requires
        parts.len() > 0,
    ensures
        join_spec(parts.push(x)) == join_spec(parts) + seq![SPACE] + x,
{
    assert(parts.push(x).drop_last() =~= parts);
    assert(parts.push(x).last() == x);
}

/// Joins the tokens with single spaces, without the terminator.
fn join_with_spaces(args: &Vec<Vec<u8>>) -> (r: Vec<u8>)
    requires
        args@.len() > 0,
    ensures
        r@ == join_spec(views_of(args@)),
{
    let ghost parts = views_of(args@);
    let mut r: Vec<u8> = Vec::new();
    append_bytes(&mut r, &args[0]);
    proof {
        assert(parts.subrange(0, 1).len() == 1);
        assert(parts.subrange(0, 1)[0] == args@[0]@);
        assert(r@ == join_spec(parts.subrange(0, 1)));
    }
    let mut i: usize = 1;
    while i < args.len()
        invariant
            1 <= i <= args@.len(),
            parts == views_of(args@),
            parts.len() == args@.len(),
            r@ == join_spec(parts.subrange(0, i as int)),
        decreases args@.len() - i,
    {
        r.push(SPACE);
        append_bytes(&mut r, &args[i]);
        proof {
            lemma_join_push(parts.subrange(0, i as int), parts[i as int]);
            assert(parts.subrange(0, i + 1) =~= parts.subrange(0, i as int).push(
                parts[i as int],
            ));
        }
        i += 1;
    }
    proof {
        assert(parts.subrange(0, parts.len() as int) =~= parts);
    }
    r
}

/// Builds the wire message for the given command tokens.
///
/// An empty token sequence is rejected as [`UsageError::NoCommand`]; a
/// message longer than [`MAX_MESSAGE_LEN`] bytes, terminator included, is
/// rejected as [`UsageError::MessageTooLong`].  Every other token sequence
/// yields exactly the joined tokens plus one newline.
pub fn build_message(args: &Vec<Vec<u8>>) -> (r: Result<Vec<u8>, UsageError>)
    ensures
        args@.len() > 0 && wire_message(views_of(args@)).len() <= MAX_MESSAGE_LEN ==> r is Ok,
        args@.len() > 0 && wire_message(views_of(args@)).len() > MAX_MESSAGE_LEN ==> (r matches Err(
            UsageError::MessageTooLong,
        )),
        args@.len() == 0 ==> (r matches Err(UsageError::NoCommand)),
        match r {
            Ok(m) => {
                &&& args@.len() > 0
                &&& m@ == wire_message(views_of(args@))
                &&& m@.len() <= MAX_MESSAGE_LEN
            },
            Err(e) => match e {
                UsageError::NoCommand => args@.len() == 0,
                UsageError::MessageTooLong => args@.len() > 0 && wire_message(
                    views_of(args@),
                ).len() > MAX_MESSAGE_LEN,
            },
        },
{
    if args.len() == 0 {
        return Err(UsageError::NoCommand);
    }
    let mut m = join_with_spaces(args);
    m.push(NEWLINE);
    proof {
        assert(m@ =~= wire_message(views_of(args@)));
    }
    if m.len() > MAX_MESSAGE_LEN {
        return Err(UsageError::MessageTooLong);
    }
    Ok(m)
}

} // verus!
