//! The timed interactive prompt, seen from the pure side: the outcome of a
//! bounded line read is a value — a line, a timeout, or a read failure — and
//! each call site maps it to its safe default.

use vstd::prelude::*;

use crate::resolve::read_fail_msg;
use crate::strutil::{eq_ignore_case, str_eq_ignore_case, str_trim, trim_seq};

verus! {

/// The outcome of a line read bounded by a timeout.
pub enum TimedReply {
    /// A line arrived before the timeout.
    Line(String),
    /// No input arrived within the timeout.
    TimedOut,
    /// The input stream could not be read.
    Failed,
}

/// What a yes/no confirmation resolves to: `y` or `yes` in any ASCII case
/// means yes, anything else — a timeout included — means no; only a broken
/// input stream is an error.
pub open spec fn spec_confirm(reply: TimedReply) -> Result<bool, Seq<char>> {
    match reply {
        TimedReply::Line(l) => Ok(
            eq_ignore_case(trim_seq(l@), "y"@) || eq_ignore_case(trim_seq(l@), "yes"@),
        ),
        TimedReply::TimedOut => Ok(false),
        TimedReply::Failed => Err(read_fail_msg()),
    }
}

/// The view of a bool-or-error result.
pub open spec fn bool_res_view(r: Result<bool, String>) -> Result<bool, Seq<char>> {
    match r {
        Ok(b) => Ok(b),
        Err(e) => Err(e@),
    }
}

/// Map the outcome of a confirmation prompt to an answer.
pub fn confirm_answer(reply: &TimedReply) -> (r: Result<bool, String>)
    ensures
        bool_res_view(r) == spec_confirm(*reply),
{
    match reply {
        TimedReply::Line(l) => {
            let t = str_trim(l.as_str());
            Ok(str_eq_ignore_case(t, "y") || str_eq_ignore_case(t, "yes"))
        },
        TimedReply::TimedOut => Ok(false),
        TimedReply::Failed => Err("Failed to read input".to_owned()),
    }
}

/// A confirmation gate: a dry run never asks and answers no; otherwise the
/// reply decides.
pub fn confirm_with_timeout(dry_run: bool, reply: &TimedReply) -> (r: Result<bool, String>)
    ensures
        dry_run ==> (r matches Ok(b) && b == false),
        !dry_run ==> bool_res_view(r) == spec_confirm(*reply),
{
    if dry_run {
        Ok(false)
    } else {
        confirm_answer(reply)
    }
}

/// The text of a plain prompt: `label: `.
pub fn prompt_line(label: &str) -> (r: String)
    ensures
        r@ == label@ + ": "@,
{
    label.to_owned().concat(": ")
}

/// The label of a prompt that has a visible default: `label [default]`.
pub fn prompt_label_with_default(label: &str, default: &str) -> (r: String)
    ensures
        r@ == label@ + " ["@ + default@ + "]"@,
{
    label.to_owned().concat(" [").concat(default).concat("]")
}

} // verus!
