//! The startup resolver: from the process arguments to at most one file.
//!
//! The resolver decides; its host looks at the disk. After [`Resolver::start`]
//! the host reads [`Resolver::stage`], does what the stage waits for, and
//! hands the outcome to [`Resolver::step`], until the stage is
//! [`Stage::Done`]. No outcome makes the resolver fail: whatever goes wrong
//! ends in a resolver that is done and holds no file.

use vstd::prelude::*;
use crate::args::{candidate, find_candidate};
use crate::file::{option_view, FileView, ResolvedFile};
use crate::path::{file_name_of, final_component, option_text};
use crate::trace::{
    header, header_text, note_probe, note_read_err, note_read_ok, probe_text, read_err_text,
    read_ok_text,
};

verus! {

/// What the resolver waits for.
#[derive(Debug, PartialEq, Eq)]
pub enum Stage {
    /// Whether the candidate exists on disk.
    Probing { candidate: String },
    /// The canonical, absolute form of the candidate.
    Locating { candidate: String },
    /// The text of the file at `path`, whose display name is `name`.
    Reading { path: String, name: String },
    /// Nothing: the resolution is over.
    Done,
}

/// The mathematical value of a [`Stage`].
pub enum StageView {
    Probing { candidate: Seq<char> },
    Locating { candidate: Seq<char> },
    Reading { path: Seq<char>, name: Seq<char> },
    Done,
}

impl View for Stage {
    type V = StageView;

    open spec fn view(&self) -> StageView {
        match *self {
            Stage::Probing { candidate } => StageView::Probing { candidate: candidate@ },
            Stage::Locating { candidate } => StageView::Locating { candidate: candidate@ },
            Stage::Reading { path, name } => StageView::Reading { path: path@, name: name@ },
            Stage::Done => StageView::Done,
        }
    }
}

/// What the host found out.
#[derive(Debug, PartialEq, Eq)]
pub enum Answer {
    /// Whether the candidate exists.
    Exists(bool),
    /// The canonical form of the candidate, or nothing where it could not be
    /// had.
    Canonical(Option<String>),
    /// The text of the file, or the description of why it could not be read
    /// as text.
    Text(Result<String, String>),
}

/// The mathematical value of an [`Answer`].
pub enum AnswerView {
    Exists(bool),
    Canonical(Option<Seq<char>>),
    Text(Result<Seq<char>, Seq<char>>),
}

impl View for Answer {
    type V = AnswerView;

    open spec fn view(&self) -> AnswerView {
        match *self {
            Answer::Exists(exists) => AnswerView::Exists(exists),
            Answer::Canonical(found) => AnswerView::Canonical(option_text(found)),
            Answer::Text(Ok(content)) => AnswerView::Text(Ok(content@)),
            Answer::Text(Err(error)) => AnswerView::Text(Err(error@)),
        }
    }
}

/// The mathematical value of a [`Resolver`].
pub struct ResolverView {
    pub stage: StageView,
    pub trace: Seq<char>,
    pub file: Option<FileView>,
}

impl ResolverView {
    /// A file is held only once the resolution is over.
    pub open spec fn wf(self) -> bool {
        self.file is Some ==> self.stage is Done
    }
}

/// The resolver before any answer: it waits for the candidate to be looked
/// up, or is done at once where the arguments name no candidate.
pub open spec fn start_model(args: Seq<Seq<char>>) -> ResolverView {
    ResolverView {
        stage: match candidate(args) {
            Some(c) => StageView::Probing { candidate: c },
            None => StageView::Done,
        },
        trace: header_text(args),
        file: None,
    }
}

/// The resolver after it has learned the path and the final component of
/// the path: it waits for the text, under the final component as display
/// name, or under the empty name where the path has no final component.
/// A resolver that does not wait for a location stays as it is.
pub open spec fn locate_model(
    state: ResolverView,
    path: Seq<char>,
    name: Option<Seq<char>>,
) -> ResolverView {
    match state.stage {
        StageView::Locating { .. } => ResolverView {
            stage: StageView::Reading {
                path,
                name: match name {
                    Some(n) => n,
                    None => Seq::empty(),
                },
            },
            ..state
        },
        _ => state,
    }
}

/// The resolver after one answer. An answer to something that the resolver
/// does not wait for changes nothing.
pub open spec fn step_model(state: ResolverView, answer: AnswerView) -> ResolverView {
    match (state.stage, answer) {
        (StageView::Probing { candidate }, AnswerView::Exists(exists)) => ResolverView {
            stage: if exists {
                StageView::Locating { candidate }
            } else {
                StageView::Done
            },
            trace: state.trace + probe_text(candidate, exists),
            file: state.file,
        },
        (StageView::Locating { candidate }, AnswerView::Canonical(found)) => {
            let path = match found {
                Some(p) => p,
                None => candidate,
            };
            locate_model(state, path, file_name_of(path))
        },
        (StageView::Reading { path, name }, AnswerView::Text(Ok(content))) => ResolverView {
            stage: StageView::Done,
            trace: state.trace + read_ok_text(content),
            file: Some(FileView { path, name, content }),
        },
        (StageView::Reading { .. }, AnswerView::Text(Err(error))) => ResolverView {
            stage: StageView::Done,
            trace: state.trace + read_err_text(error),
            file: state.file,
        },
        _ => state,
    }
}

/// The resolver after a run of answers, handed over in order.
pub open spec fn run_model(args: Seq<Seq<char>>, answers: Seq<AnswerView>) -> ResolverView
    decreases answers.len(),
{
    if answers.len() == 0 {
        start_model(args)
    } else {
        step_model(run_model(args, answers.drop_last()), answers.last())
    }
}

/// The state of one resolution.
pub struct Resolver {
    stage: Stage,
    trace: String,
    file: Option<ResolvedFile>,
}

impl View for Resolver {
    type V = ResolverView;

    closed spec fn view(&self) -> ResolverView {
        ResolverView { stage: self.stage@, trace: self.trace@, file: option_view(self.file) }
    }
}

impl Resolver {
    #[verifier::type_invariant]
    spec fn inv(self) -> bool {
        self.file is Some ==> self.stage is Done
    }

    /// Begins a resolution: writes the header of the trace and picks the
    /// candidate, the first argument after the program name that is no flag.
    pub fn start(args: &Vec<String>) -> (resolver: Resolver)
        ensures
            resolver@ == start_model(args.deep_view()),
            resolver@.wf(),
    {
        let trace = header(args);
        let stage = match find_candidate(args) {
            Some(i) => {
                assert(args.deep_view()[i as int] == args[i as int]@);
                Stage::Probing { candidate: args[i].clone() }
            },
            None => Stage::Done,
        };
        Resolver { stage, trace, file: None }
    }

    /// What the resolver waits for.
    pub fn stage(&self) -> (stage: &Stage)
        ensures
            stage@ == self@.stage,
    {
        &self.stage
    }

    /// Whether the resolution is over.
    pub fn is_done(&self) -> (done: bool)
        ensures
            done == (self@.stage is Done),
    {
        match self.stage {
            Stage::Done => true,
            _ => false,
        }
    }

    /// The trace so far.
    pub fn trace(&self) -> (trace: &str)
        ensures
            trace@ == self@.trace,
    {
        self.trace.as_str()
    }

    /// Ends the resolution and gives up the file, if one was resolved, and
    /// the trace.
    pub fn finish(self) -> (parts: (Option<ResolvedFile>, String))
        ensures
            option_view(parts.0) == self@.file,
            parts.1@ == self@.trace,
            parts.0 is Some ==> self@.stage is Done,
    {
        proof {
            use_type_invariant(&self);
        }
        (self.file, self.trace)
    }

    /// Takes one answer of the host and moves on.
    pub fn step(self, answer: Answer) -> (next: Resolver)
        ensures
            next@ == step_model(self@, answer@),
            next@.wf(),
    {
        proof {
            use_type_invariant(&self);
        }
        match answer {
            Answer::Exists(exists) => self.probed(exists),
            Answer::Canonical(found) => {
                match &self.stage {
                    Stage::Locating { candidate } => {
                        let path = match found {
                            Some(p) => p,
                            None => candidate.clone(),
                        };
                        let name = final_component(path.as_str());
                        self.locate(path, name)
                    },
                    _ => self,
                }
            },
            Answer::Text(outcome) => self.read(outcome),
        }
    }

    /// Records where the candidate lies and what the final component of that
    /// path is, and goes on to wait for the text. The display name is the
    /// final component, or empty where there is none.
    pub fn locate(self, path: String, name: Option<String>) -> (next: Resolver)
        ensures
            next@ == locate_model(self@, path@, option_text(name)),
            next@.wf(),
    {
        proof {
            use_type_invariant(&self);
        }
        match self.stage {
            Stage::Locating { .. } => {
                let name = match name {
                    Some(n) => n,
                    None => String::new(),
                };
                Resolver { stage: Stage::Reading { path, name }, trace: self.trace, file: self.file }
            },
            stage => Resolver { stage, trace: self.trace, file: self.file },
        }
    }

    fn probed(self, exists: bool) -> (next: Resolver)
        ensures
            next@ == step_model(self@, AnswerView::Exists(exists)),
            next@.wf(),
    {
        proof {
            use_type_invariant(&self);
        }
        match self.stage {
            Stage::Probing { candidate } => {
                let mut trace = self.trace;
                note_probe(&mut trace, candidate.as_str(), exists);
                let stage = if exists {
                    Stage::Locating { candidate }
                } else {
                    Stage::Done
                };
                Resolver { stage, trace, file: self.file }
            },
            stage => Resolver { stage, trace: self.trace, file: self.file },
        }
    }

    fn read(self, outcome: Result<String, String>) -> (next: Resolver)
        ensures
            next@ == step_model(self@, Answer::Text(outcome)@),
            next@.wf(),
    {
        proof {
            use_type_invariant(&self);
        }
        match self.stage {
            Stage::Reading { path, name } => {
                let mut trace = self.trace;
                match outcome {
                    Ok(content) => {
                        note_read_ok(&mut trace, content.as_str());
                        Resolver {
                            stage: Stage::Done,
                            trace,
                            file: Some(ResolvedFile { path, name, content }),
                        }
                    },
                    Err(error) => {
                        note_read_err(&mut trace, error.as_str());
                        Resolver { stage: Stage::Done, trace, file: self.file }
                    },
                }
            },
            stage => Resolver { stage, trace: self.trace, file: self.file },
        }
    }
}

} // verus!
