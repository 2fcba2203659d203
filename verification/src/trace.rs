//! The startup trace: one line of text for each step of the resolution.
//!
//! The trace starts with a header, `args(<count>):` followed by every raw
//! argument in square brackets, and grows by one line for each step taken:
//! `try: <argument> exists=<true|false>` when the candidate is looked up,
//! then `read OK: <count> bytes` or `read ERR: <description>` when the file
//! is read. It is meant for people, not for programs.

use vstd::prelude::*;
use vstd::utf8::encode_utf8;
use crate::text::{bool_str, bool_text, decimal, decimal_text};

verus! {

/// Every argument in square brackets, each preceded by a blank.
pub open spec fn bracketed(args: Seq<Seq<char>>) -> Seq<char>
    decreases args.len(),
{
    if args.len() == 0 {
        Seq::empty()
    } else {
        bracketed(args.drop_last()) + " ["@ + args.last() + "]"@
    }
}

/// The header of the trace: the number of arguments and the arguments.
pub open spec fn header_text(args: Seq<Seq<char>>) -> Seq<char> {
    "args("@ + decimal_text(args.len()) + "):"@ + bracketed(args)
}

/// The line that records whether the candidate exists.
pub open spec fn probe_text(candidate: Seq<char>, exists: bool) -> Seq<char> {
    "\ntry: "@ + candidate + " exists="@ + bool_text(exists)
}

/// The number of bytes that a text takes when stored as UTF-8.
pub open spec fn byte_count(content: Seq<char>) -> nat {
    encode_utf8(content).len()
}

/// The line that records a successful read, with the size of what was read.
pub open spec fn read_ok_text(content: Seq<char>) -> Seq<char> {
    "\nread OK: "@ + decimal_text(byte_count(content)) + " bytes"@
}

/// The line that records a failed read, with the description of the failure.
pub open spec fn read_err_text(error: Seq<char>) -> Seq<char> {
    "\nread ERR: "@ + error
}

/// Starts a trace with its header.
pub fn header(args: &Vec<String>) -> (trace: String)
    ensures
        trace@ == header_text(args.deep_view()),
{
    let ghost texts = args.deep_view();
    let mut trace = String::from_str("args(");
    trace.append(decimal(args.len()).as_str());
    trace.append("):");
    let ghost start = trace@;
    let mut i: usize = 0;
    assert(texts.take(0) =~= Seq::<Seq<char>>::empty());
    while i < args.len()
        invariant
            i <= args.len(),
            texts == args.deep_view(),
            trace@ == start + bracketed(texts.take(i as int)),
        decreases args.len() - i,
    {
        trace.append(" [");
        trace.append(args[i].as_str());
        trace.append("]");
        proof {
            let grown = texts.take(i + 1);
            assert(grown.drop_last() =~= texts.take(i as int));
            assert(grown.last() == args[i as int]@);
            assert(trace@ =~= start + bracketed(grown));
        }
        i += 1;
    }
    assert(texts.take(i as int) =~= texts);
    trace
}

/// Adds the line that records whether the candidate exists.
pub fn note_probe(trace: &mut String, candidate: &str, exists: bool)
    ensures
        final(trace)@ == old(trace)@ + probe_text(candidate@, exists),
{
    trace.append("\ntry: ");
    trace.append(candidate);
    trace.append(" exists=");
    trace.append(bool_str(exists));
    assert(trace@ =~= old(trace)@ + probe_text(candidate@, exists));
}

/// Adds the line that records a successful read of `content`.
pub fn note_read_ok(trace: &mut String, content: &str)
    ensures
        final(trace)@ == old(trace)@ + read_ok_text(content@),
{
    trace.append("\nread OK: ");
    trace.append(decimal(content.as_bytes().len()).as_str());
    trace.append(" bytes");
    assert(trace@ =~= old(trace)@ + read_ok_text(content@));
}

/// Adds the line that records a failed read, described by `error`.
pub fn note_read_err(trace: &mut String, error: &str)
    ensures
        final(trace)@ == old(trace)@ + read_err_text(error@),
{
    trace.append("\nread ERR: ");
    trace.append(error);
    assert(trace@ =~= old(trace)@ + read_err_text(error@));
}

} // verus!
