//! What holds of every resolution, whatever the arguments and whatever the
//! host answers.

use vstd::prelude::*;
use crate::args::{candidate, candidate_index, is_flag_text, lemma_scan_from, lemma_scan_skips_flags, scan_from};
use crate::file::FileView;
use crate::path::file_name_of;
use crate::resolver::{run_model, start_model, step_model, AnswerView, ResolverView, StageView};
use crate::slot::take_model;
use crate::trace::{header_text, probe_text, read_err_text, read_ok_text};

verus! {

/// Some answer says that the candidate exists.
pub open spec fn saw_existing(answers: Seq<AnswerView>) -> bool {
    exists|j: int| 0 <= j < answers.len() && #[trigger] answers[j] == AnswerView::Exists(true)
}

/// Some answer says that the candidate exists, and a later one brings
/// `content` as the text that was read.
pub open spec fn read_after_existing(answers: Seq<AnswerView>, content: Seq<char>) -> bool {
    exists|j: int, i: int|
        0 <= j < i < answers.len() && #[trigger] answers[j] == AnswerView::Exists(true)
            && #[trigger] answers[i] == AnswerView::Text(Ok(content))
}

/// A resolver that is done stays as it is, whatever it is told.
pub proof fn lemma_done_is_final(state: ResolverView, answer: AnswerView)
    requires
        state.stage is Done,
    ensures
        step_model(state, answer) == state,
{
}

/// Once a run has come to its end, further answers change nothing.
pub proof fn lemma_run_stays_done(
    args: Seq<Seq<char>>,
    answers: Seq<AnswerView>,
    more: Seq<AnswerView>,
)
    requires
        run_model(args, answers).stage is Done,
    ensures
        run_model(args, answers + more) == run_model(args, answers),
    decreases more.len(),
{
    if more.len() == 0 {
        assert(answers + more =~= answers);
    } else {
        lemma_run_stays_done(args, answers, more.drop_last());
        assert((answers + more).drop_last() =~= answers + more.drop_last());
        assert((answers + more).last() == more.last());
    }
}

/// A step keeps what the trace held and writes behind it.
pub proof fn lemma_step_extends_trace(state: ResolverView, answer: AnswerView)
    ensures
        state.trace.is_prefix_of(step_model(state, answer).trace),
{
    let next = step_model(state, answer);
    assert(next.trace.subrange(0, state.trace.len() as int) =~= state.trace);
}

/// At every point of every run the resolver is well formed, and its trace
/// begins with the header.
pub proof fn lemma_run_well_formed(args: Seq<Seq<char>>, answers: Seq<AnswerView>)
    ensures
        run_model(args, answers).wf(),
        header_text(args).is_prefix_of(run_model(args, answers).trace),
    decreases answers.len(),
{
    let header = header_text(args);
    if answers.len() == 0 {
        assert(header.subrange(0, header.len() as int) =~= header);
    } else {
        let before = run_model(args, answers.drop_last());
        lemma_run_well_formed(args, answers.drop_last());
        lemma_step_extends_trace(before, answers.last());
        let after = step_model(before, answers.last());
        assert(after.trace.subrange(0, header.len() as int) =~= before.trace.subrange(
            0,
            header.len() as int,
        ));
    }
}

/// Where no argument after the program name is anything but a flag, the
/// resolution is over before it began: no answer of the host brings a file,
/// and the slot filled from it gives nothing.
pub proof fn lemma_no_candidate_no_file(args: Seq<Seq<char>>, answers: Seq<AnswerView>)
    requires
        forall|j: int| 1 <= j < args.len() ==> is_flag_text(#[trigger] args[j]),
    ensures
        candidate(args) is None,
        run_model(args, answers) == start_model(args),
        run_model(args, answers).stage is Done,
        run_model(args, answers).file is None,
        take_model(run_model(args, answers).file).0 is None,
{
    lemma_scan_from(args, 1);
    assert(candidate_index(args) is None);
    assert(run_model(args, Seq::<AnswerView>::empty()) == start_model(args));
    lemma_run_stays_done(args, Seq::empty(), answers);
    assert(Seq::<AnswerView>::empty() + answers =~= answers);
}

/// Where the candidate does not exist, the resolution ends without a file,
/// with a trace that records the attempt, and nothing that the host says
/// afterwards changes that.
pub proof fn lemma_missing_candidate_no_file(
    args: Seq<Seq<char>>,
    path: Seq<char>,
    answers: Seq<AnswerView>,
)
    requires
        candidate(args) == Some(path),
        answers.len() > 0,
        answers[0] == AnswerView::Exists(false),
    ensures
        run_model(args, answers).stage is Done,
        run_model(args, answers).file is None,
        run_model(args, answers).trace == header_text(args) + probe_text(path, false),
{
    let first = seq![AnswerView::Exists(false)];
    assert(first.drop_last() =~= Seq::<AnswerView>::empty());
    assert(run_model(args, first.drop_last()) == start_model(args));
    assert(run_model(args, first) == step_model(start_model(args), AnswerView::Exists(false)));
    lemma_run_stays_done(args, first, answers.subrange(1, answers.len() as int));
    assert(first + answers.subrange(1, answers.len() as int) =~= answers);
}

/// The outcome of a run depends on the arguments only through the
/// candidate: two argument lists with the same candidate come, under the
/// same answers, to the same stage and the same file.
pub proof fn lemma_same_candidate_same_file(
    args: Seq<Seq<char>>,
    other: Seq<Seq<char>>,
    answers: Seq<AnswerView>,
)
    requires
        candidate(args) == candidate(other),
    ensures
        run_model(args, answers).stage == run_model(other, answers).stage,
        run_model(args, answers).file == run_model(other, answers).file,
    decreases answers.len(),
{
    if answers.len() > 0 {
        lemma_same_candidate_same_file(args, other, answers.drop_last());
    }
}

/// Flags between the program name and the candidate do not matter: the
/// candidate is the same with them and without them.
pub proof fn lemma_leading_flags_are_skipped(
    program: Seq<char>,
    flags: Seq<Seq<char>>,
    rest: Seq<Seq<char>>,
)
    requires
        forall|j: int| 0 <= j < flags.len() ==> is_flag_text(#[trigger] flags[j]),
    ensures
        candidate(seq![program] + flags + rest) == candidate(seq![program] + rest),
{
    let long = seq![program] + flags + rest;
    let short = seq![program] + rest;
    let behind = 1 + flags.len() as int;
    lemma_scan_skips_flags(long, 1, behind);
    lemma_scan_shifted(long, short, behind, 1);
}

/// Two argument lists that hold the same arguments from one position on, each
/// from a position of its own, are scanned alike from there.
proof fn lemma_scan_shifted(long: Seq<Seq<char>>, short: Seq<Seq<char>>, from: int, to: int)
    requires
        0 <= to <= from,
        long.len() - from == short.len() - to,
        forall|k: int| from <= k < long.len() ==> #[trigger] long[k] == short[k - from + to],
    ensures
        match scan_from(long, from) {
            Some(i) => scan_from(short, to) == Some(i - from + to) && long[i] == short[i - from
                + to],
            None => scan_from(short, to) is None,
        },
    decreases long.len() - from,
{
    if from < long.len() {
        assert(long[from] == short[to]);
        if is_flag_text(long[from]) {
            lemma_scan_shifted(long, short, from + 1, to + 1);
        }
    }
}

/// The arguments behind the candidate are never looked at: whatever stands
/// there, the candidate is the same.
pub proof fn lemma_later_arguments_are_ignored(
    args: Seq<Seq<char>>,
    other: Seq<Seq<char>>,
    i: int,
)
    requires
        candidate_index(args) == Some(i),
        other.len() > i,
        forall|j: int| 0 <= j <= i ==> args[j] == other[j],
    ensures
        candidate_index(other) == Some(i),
        candidate(other) == candidate(args),
{
    lemma_scan_from(args, 1);
    lemma_scan_skips_flags(other, 1, i);
}

/// A run in which the candidate exists and is read as text ends with the
/// file: its path is the canonical form, or the candidate itself where there
/// is no canonical form; its name is the final component of that path, or
/// empty where the path has none; its content is the text that was read.
pub proof fn lemma_successful_run(
    args: Seq<Seq<char>>,
    found: Option<Seq<char>>,
    content: Seq<char>,
)
    requires
        candidate(args) is Some,
    ensures
        ({
            let path = match found {
                Some(p) => p,
                None => candidate(args)->0,
            };
            let name = match file_name_of(path) {
                Some(n) => n,
                None => Seq::empty(),
            };
            let end = run_model(
                args,
                seq![
                    AnswerView::Exists(true),
                    AnswerView::Canonical(found),
                    AnswerView::Text(Ok(content)),
                ],
            );
            &&& end.stage is Done
            &&& end.file == Some(FileView { path, name, content })
            &&& end.trace == header_text(args) + probe_text(candidate(args)->0, true)
                + read_ok_text(content)
        }),
{
    let three = seq![
        AnswerView::Exists(true),
        AnswerView::Canonical(found),
        AnswerView::Text(Ok(content)),
    ];
    let two = seq![AnswerView::Exists(true), AnswerView::Canonical(found)];
    let one = seq![AnswerView::Exists(true)];
    assert(three.drop_last() =~= two);
    assert(two.drop_last() =~= one);
    assert(one.drop_last() =~= Seq::<AnswerView>::empty());
    assert(run_model(args, one.drop_last()) == start_model(args));
    assert(run_model(args, one) == step_model(start_model(args), one.last()));
    assert(run_model(args, two) == step_model(run_model(args, one), two.last()));
    assert(run_model(args, three) == step_model(run_model(args, two), three.last()));
}

/// A run in which the candidate exists but cannot be read as text ends
/// without a file, and the trace holds the description of the failure.
pub proof fn lemma_failed_read_run(
    args: Seq<Seq<char>>,
    found: Option<Seq<char>>,
    error: Seq<char>,
)
    requires
        candidate(args) is Some,
    ensures
        ({
            let end = run_model(
                args,
                seq![
                    AnswerView::Exists(true),
                    AnswerView::Canonical(found),
                    AnswerView::Text(Err(error)),
                ],
            );
            &&& end.stage is Done
            &&& end.file is None
            &&& end.trace == header_text(args) + probe_text(candidate(args)->0, true)
                + read_err_text(error)
        }),
{
    let three = seq![
        AnswerView::Exists(true),
        AnswerView::Canonical(found),
        AnswerView::Text(Err(error)),
    ];
    let two = seq![AnswerView::Exists(true), AnswerView::Canonical(found)];
    let one = seq![AnswerView::Exists(true)];
    assert(three.drop_last() =~= two);
    assert(two.drop_last() =~= one);
    assert(one.drop_last() =~= Seq::<AnswerView>::empty());
    assert(run_model(args, one.drop_last()) == start_model(args));
    assert(run_model(args, one) == step_model(start_model(args), one.last()));
    assert(run_model(args, two) == step_model(run_model(args, one), two.last()));
    assert(run_model(args, three) == step_model(run_model(args, two), three.last()));
}

/// A file is only ever made of a candidate that was said to exist and of a
/// text that was read after that: the resolver goes past the lookup only on
/// the answer that the candidate exists, and holds a file only with the
/// content that a later answer brought.
pub proof fn lemma_file_needs_existing_and_read(args: Seq<Seq<char>>, answers: Seq<AnswerView>)
    ensures
        run_model(args, answers).stage is Locating || run_model(args, answers).stage is Reading
            ==> saw_existing(answers),
        run_model(args, answers).file matches Some(file) ==> read_after_existing(
            answers,
            file.content,
        ),
    decreases answers.len(),
{
    if answers.len() > 0 {
        let earlier = answers.drop_last();
        let last = answers.len() - 1;
        let before = run_model(args, earlier);
        let after = run_model(args, answers);
        lemma_file_needs_existing_and_read(args, earlier);
        lemma_run_well_formed(args, earlier);
        if saw_existing(earlier) {
            let j = choose|j: int|
                0 <= j < earlier.len() && #[trigger] earlier[j] == AnswerView::Exists(true);
            assert(answers[j] == earlier[j]);
        }
        if after.stage is Locating || after.stage is Reading {
            if !(before.stage is Locating || before.stage is Reading) {
                assert(answers[last] == AnswerView::Exists(true));
            }
        }
        if let Some(file) = after.file {
            if let Some(old_file) = before.file {
                let (j, i) = choose|j: int, i: int|
                    0 <= j < i < earlier.len() && #[trigger] earlier[j] == AnswerView::Exists(true)
                        && #[trigger] earlier[i] == AnswerView::Text(Ok(old_file.content));
                assert(answers[j] == earlier[j]);
                assert(answers[i] == earlier[i]);
            } else {
                assert(before.stage is Reading);
                let j = choose|j: int|
                    0 <= j < earlier.len() && #[trigger] earlier[j] == AnswerView::Exists(true);
                assert(answers[j] == earlier[j]);
                assert(answers[last] == AnswerView::Text(Ok(file.content)));
            }
        }
    }
}

} // verus!
