//! Scanning the process arguments for the one file to open.

use vstd::prelude::*;

verus! {

/// An argument is a flag when its text starts with `-`.
pub open spec fn is_flag_text(arg: Seq<char>) -> bool {
    arg.len() > 0 && arg[0] == '-'
}

/// Position of the first argument at or after `from` that is no flag.
pub open spec fn scan_from(args: Seq<Seq<char>>, from: int) -> Option<int>
    decreases args.len() - from,
{
    if from >= args.len() {
        None
    } else if !is_flag_text(args[from]) {
        Some(from)
    } else {
        scan_from(args, from + 1)
    }
}

/// Position of the candidate: the first argument after the program name that
/// is no flag.
pub open spec fn candidate_index(args: Seq<Seq<char>>) -> Option<int> {
    scan_from(args, 1)
}

/// Text of the candidate, where there is one.
pub open spec fn candidate(args: Seq<Seq<char>>) -> Option<Seq<char>> {
    match candidate_index(args) {
        Some(i) => Some(args[i]),
        None => None,
    }
}

/// What [`scan_from`] finds is in range and no flag, and everything it passed
/// over is a flag.
pub proof fn lemma_scan_from(args: Seq<Seq<char>>, from: int)
    requires
        0 <= from,
    ensures
        match scan_from(args, from) {
            Some(i) => {
                &&& from <= i < args.len()
                &&& !is_flag_text(args[i])
                &&& forall|j: int| from <= j < i ==> is_flag_text(#[trigger] args[j])
            },
            None => forall|j: int| from <= j < args.len() ==> is_flag_text(#[trigger] args[j]),
        },
    decreases args.len() - from,
{
    if from < args.len() && is_flag_text(args[from]) {
        lemma_scan_from(args, from + 1);
    }
}

/// The candidate is the first argument after position zero that is no flag:
/// it is found exactly when such an argument exists, and no argument between
/// the program name and the candidate is anything but a flag.
pub proof fn lemma_candidate_is_first_plain(args: Seq<Seq<char>>)
    ensures
        candidate_index(args) is Some <==> exists|j: int|
            1 <= j < args.len() && !is_flag_text(#[trigger] args[j]),
        candidate_index(args) matches Some(i) ==> {
            &&& 1 <= i < args.len()
            &&& !is_flag_text(args[i])
            &&& forall|j: int| 1 <= j < i ==> is_flag_text(#[trigger] args[j])
        },
{
    lemma_scan_from(args, 1);
}

/// Starting the scan later finds the same argument, as long as only flags
/// are left out.
pub proof fn lemma_scan_skips_flags(args: Seq<Seq<char>>, from: int, to: int)
    requires
        0 <= from <= to <= args.len(),
        forall|j: int| from <= j < to ==> is_flag_text(#[trigger] args[j]),
    ensures
        scan_from(args, from) == scan_from(args, to),
    decreases to - from,
{
    if from < to {
        lemma_scan_skips_flags(args, from + 1, to);
    }
}

/// Tells whether an argument is a flag.
pub fn is_flag(arg: &str) -> (flag: bool)
    ensures
        flag == is_flag_text(arg@),
{
    !arg.is_empty() && arg.get_char(0) == '-'
}

/// Finds the candidate among the process arguments: position zero holds the
/// program name and is skipped, flags are passed over, and the first
/// argument that is no flag is the answer. Arguments after it are not looked
/// at.
pub fn find_candidate(args: &Vec<String>) -> (found: Option<usize>)
    ensures
        match found {
            Some(i) => 1 <= i < args.len() && candidate_index(args.deep_view()) == Some(i as int),
            None => candidate_index(args.deep_view()) is None,
        },
{
    let mut i: usize = 1;
    while i < args.len()
        invariant
            1 <= i,
            scan_from(args.deep_view(), 1) == scan_from(args.deep_view(), i as int),
        decreases args.len() - i,
    {
        assert(args.deep_view()[i as int] == args[i as int]@);
        if !is_flag(args[i].as_str()) {
            return Some(i);
        }
        i += 1;
    }
    None
}

} // verus!
