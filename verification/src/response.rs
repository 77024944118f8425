//! The response interpreter: classifies the daemon's complete buffered
//! reply into a tagged outcome and maps each outcome to its exit code and
//! standard-output bytes.
//!
//! Classification goes by structural prefix, in precedence order: a reply
//! starting with `ERROR: ` carries a daemon-reported command failure; one
//! starting with `OK` is a success whose payload is what follows the prefix
//! with leading whitespace stripped; any other non-empty reply is legacy
//! free-form content printed with one normalized trailing newline; an empty
//! reply is a bare success.  This runs once per invocation against the
//! whole reply — it is a classification, not a state machine over time.

use vstd::prelude::*;
use crate::bytes::{slice_range, is_prefix, starts_with};
use crate::message::NEWLINE;

verus! {

/// The structural prefix of a daemon-reported failure: `ERROR: `.
pub open spec fn error_prefix() -> Seq<u8> {
    seq![69u8, 82u8, 82u8, 79u8, 82u8, 58u8, 32u8]
}

/// The structural prefix of a structured success reply: `OK`.
pub open spec fn ok_prefix() -> Seq<u8> {
    seq![79u8, 75u8]
}

/// Holds for the ASCII whitespace bytes stripped after the `OK` prefix:
/// tab through carriage return, and space.
pub open spec fn is_ascii_space(b: u8) -> bool {
    b == 32 || (9 <= b && b <= 13)
}

/// `s` with every trailing newline byte removed.
pub open spec fn trim_newlines_end(s: Seq<u8>) -> Seq<u8>
    decreases s.len(),
{
    if s.len() > 0 && s[s.len() - 1] == NEWLINE {
        trim_newlines_end(s.drop_last())
    } else {
        s
    }
}

/// `s` with every leading ASCII whitespace byte removed.
pub open spec fn trim_spaces_start(s: Seq<u8>) -> Seq<u8>
    decreases s.len(),
{
    if s.len() > 0 && is_ascii_space(s[0]) {
        trim_spaces_start(s.subrange(1, s.len() as int))
    } else {
        s
    }
}

/// Holds when the reply reports a command failure.
pub open spec fn is_error_response(r: Seq<u8>) -> bool {
    starts_with(r, error_prefix())
}

/// Holds when the reply is a structured success.
pub open spec fn is_ok_response(r: Seq<u8>) -> bool {
    !is_error_response(r) && starts_with(r, ok_prefix())
}

/// Holds when the reply is non-empty legacy free-form content.
pub open spec fn is_legacy_response(r: Seq<u8>) -> bool {
    !is_error_response(r) && !starts_with(r, ok_prefix()) && r.len() > 0
}

/// The daemon's message inside a failure reply: what follows `ERROR: `,
/// trailing newlines trimmed.
pub open spec fn error_message_of(r: Seq<u8>) -> Seq<u8> {
    trim_newlines_end(r.subrange(error_prefix().len() as int, r.len() as int))
}

/// The payload of a structured success reply: what follows `OK`, leading
/// whitespace stripped, otherwise verbatim.
pub open spec fn ok_payload_of(r: Seq<u8>) -> Seq<u8> {
    trim_spaces_start(r.subrange(ok_prefix().len() as int, r.len() as int))
}

/// The printable text of a legacy reply: the whole reply with trailing
/// newlines trimmed.
pub open spec fn legacy_text_of(r: Seq<u8>) -> Seq<u8> {
    trim_newlines_end(r)
}

/// The classified result of one request/response exchange.
#[derive(Debug, PartialEq, Eq)]
pub enum Outcome {
    /// The daemon succeeded and had nothing to print: an empty reply, or a
    /// structured success whose payload is empty.
    SuccessEmpty,
    /// The daemon succeeded and returned payload text, printed verbatim.
    SuccessWithOutput(Vec<u8>),
    /// The daemon reported a command failure with the given message.
    CommandError(Vec<u8>),
    /// A legacy free-form reply, printed with one trailing newline.
    LegacyOutput(Vec<u8>),
}

/// Removes every trailing newline byte.
fn trim_trailing_newlines(v: Vec<u8>) -> (r: Vec<u8>)
    ensures
        r@ == trim_newlines_end(v@),
{
    let mut end: usize = v.len();
    proof {
        assert(v@.subrange(0, v@.len() as int) =~= v@);
    }
    while end > 0 && v[end - 1] == NEWLINE
        invariant
            end <= v@.len(),
            trim_newlines_end(v@) == trim_newlines_end(v@.subrange(0, end as int)),
        decreases end,
    {
        proof {
            assert(v@.subrange(0, end as int).drop_last() =~= v@.subrange(0, end - 1));
        }
        end -= 1;
    }
    proof {
        assert(trim_newlines_end(v@.subrange(0, end as int)) == v@.subrange(0, end as int));
    }
    slice_range(&v, 0, end)
}

/// Removes every leading ASCII whitespace byte.
fn trim_leading_spaces(v: Vec<u8>) -> (r: Vec<u8>)
    ensures
        r@ == trim_spaces_start(v@),
{
    let mut start: usize = 0;
    proof {
        assert(v@.subrange(0, v@.len() as int) =~= v@);
    }
    while start < v.len() && (v[start] == 32 || (9 <= v[start] && v[start] <= 13))
        invariant
            start <= v@.len(),
            trim_spaces_start(v@) == trim_spaces_start(v@.subrange(start as int, v@.len() as int)),
        decreases v@.len() - start,
    {
        proof {
            assert(v@.subrange(start as int, v@.len() as int).subrange(
                1,
                v@.len() - start,
            ) =~= v@.subrange(start + 1, v@.len() as int));
        }
        start += 1;
    }
    proof {
        assert(trim_spaces_start(v@.subrange(start as int, v@.len() as int)) == v@.subrange(
            start as int,
            v@.len() as int,
        ));
    }
    slice_range(&v, start, v.len())
}

/// The bytes of the `ERROR: ` prefix.
fn error_prefix_bytes() -> (r: Vec<u8>)
    ensures
        r@ == error_prefix(),
{
    let mut r: Vec<u8> = Vec::new();
    r.push(69);
    r.push(82);
    r.push(82);
    r.push(79);
    r.push(82);
    r.push(58);
    r.push(32);
    proof {
        assert(r@ =~= error_prefix());
    }
    r
}

/// The bytes of the `OK` prefix.
fn ok_prefix_bytes() -> (r: Vec<u8>)
    ensures
        r@ == ok_prefix(),
{
    let mut r: Vec<u8> = Vec::new();
    r.push(79);
    r.push(75);
    proof {
        assert(r@ =~= ok_prefix());
    }
    r
}

/// Classifies a complete daemon reply.
///
/// Precedence: a reply starting with `ERROR: ` is a command failure whose
/// message is the remainder with trailing newlines trimmed; else one
/// starting with `OK` is a success whose payload is the remainder with
/// leading whitespace stripped, empty payload meaning a bare success; else
/// a non-empty reply is legacy content with trailing newlines trimmed; an
/// empty reply is a bare success.
pub fn interpret_response(resp: &Vec<u8>) -> (o: Outcome)
    ensures
        match o {
            Outcome::CommandError(m) => is_error_response(resp@) && m@ == error_message_of(resp@),
            Outcome::SuccessWithOutput(t) => {
                &&& is_ok_response(resp@)
                &&& ok_payload_of(resp@).len() > 0
                &&& t@ == ok_payload_of(resp@)
            },
            Outcome::SuccessEmpty => (is_ok_response(resp@) && ok_payload_of(resp@).len() == 0) || (
            !is_error_response(resp@) && !is_ok_response(resp@) && resp@.len() == 0),
            Outcome::LegacyOutput(t) => is_legacy_response(resp@) && t@ == legacy_text_of(resp@),
        },
{
    let err_prefix = error_prefix_bytes();
    if is_prefix(resp, &err_prefix) {
        let tail = slice_range(resp, err_prefix.len(), resp.len());
        let msg = trim_trailing_newlines(tail);
        return Outcome::CommandError(msg);
    }
    let okp = ok_prefix_bytes();
    if is_prefix(resp, &okp) {
        let tail = slice_range(resp, okp.len(), resp.len());
        let payload = trim_leading_spaces(tail);
        if payload.len() == 0 {
            return Outcome::SuccessEmpty;
        }
        return Outcome::SuccessWithOutput(payload);
    }
    if resp.len() > 0 {
        let whole = slice_range(resp, 0, resp.len());
        proof {
            assert(resp@.subrange(0, resp@.len() as int) =~= resp@);
        }
        let text = trim_trailing_newlines(whole);
        return Outcome::LegacyOutput(text);
    }
    Outcome::SuccessEmpty
}

/// The exit code owed to each outcome: a daemon-reported command failure
/// exits 4, every success shape exits 0.
pub open spec fn outcome_exit_code_spec(o: Outcome) -> int {
    match o {
        Outcome::CommandError(_) => 4,
        _ => 0,
    }
}

/// Maps an outcome to its process exit code.
pub fn outcome_exit_code(o: &Outcome) -> (code: i32)
    ensures
        code == outcome_exit_code_spec(*o),
{
    match o {
        Outcome::CommandError(_) => 4,
        _ => 0,
    }
}

/// The exact bytes an outcome writes to standard output: the payload
/// verbatim for a structured success, the legacy text with one trailing
/// newline, nothing otherwise.
pub open spec fn stdout_bytes_spec(o: Outcome) -> Seq<u8> {
    match o {
        Outcome::SuccessWithOutput(t) => t@,
        Outcome::LegacyOutput(t) => t@ + seq![NEWLINE],
        _ => Seq::empty(),
    }
}

/// Renders the standard-output bytes of an outcome.
pub fn stdout_bytes(o: &Outcome) -> (r: Vec<u8>)
    ensures
        r@ == stdout_bytes_spec(*o),
{
    match o {
        Outcome::SuccessWithOutput(t) => slice_range(t, 0, t.len()),
        Outcome::LegacyOutput(t) => {
            let mut r = slice_range(t, 0, t.len());
            r.push(NEWLINE);
            proof {
                assert(r@ =~= t@ + seq![NEWLINE]);
            }
            r
        },
        Outcome::SuccessEmpty => Vec::new(),
        Outcome::CommandError(_) => Vec::new(),
    }
}

} // verus!
