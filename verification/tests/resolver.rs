use md_editor::file::ResolvedFile;
use md_editor::resolver::{Answer, Resolver, Stage};
use md_editor::slot::PendingFileSlot;

fn list(items: &[&str]) -> Vec<String> {
    items.iter().map(|s| s.to_string()).collect()
}

fn probing(candidate: &str) -> Stage {
    Stage::Probing { candidate: candidate.to_string() }
}

fn locating(candidate: &str) -> Stage {
    Stage::Locating { candidate: candidate.to_string() }
}

fn reading(path: &str, name: &str) -> Stage {
    Stage::Reading { path: path.to_string(), name: name.to_string() }
}

fn canonical(path: &str) -> Answer {
    Answer::Canonical(Some(path.to_string()))
}

fn text(content: &str) -> Answer {
    Answer::Text(Ok(content.to_string()))
}

fn failure(error: &str) -> Answer {
    Answer::Text(Err(error.to_string()))
}

fn run(args: &[&str], answers: Vec<Answer>) -> Resolver {
    let mut resolver = Resolver::start(&list(args));
    for answer in answers {
        resolver = resolver.step(answer);
    }
    resolver
}

#[test]
fn no_candidate_is_done_at_once() {
    let resolver = Resolver::start(&list(&["prog", "-a", "--b"]));
    assert!(resolver.is_done());
    assert_eq!(*resolver.stage(), Stage::Done);
    assert_eq!(resolver.trace(), "args(3): [prog] [-a] [--b]");
    let (file, trace) = resolver.finish();
    assert_eq!(file, None);
    assert_eq!(trace, "args(3): [prog] [-a] [--b]");
    let mut slot = PendingFileSlot::new(file);
    assert_eq!(slot.take(), None);
}

#[test]
fn no_arguments_at_all() {
    let resolver = Resolver::start(&list(&[]));
    assert!(resolver.is_done());
    let (file, trace) = resolver.finish();
    assert_eq!(file, None);
    assert_eq!(trace, "args(0):");
}

#[test]
fn no_candidate_ignores_every_answer() {
    let resolver = run(
        &["prog", "-x"],
        vec![Answer::Exists(true), canonical("/tmp/a.md"), text("hello")],
    );
    assert!(resolver.is_done());
    let (file, trace) = resolver.finish();
    assert_eq!(file, None);
    assert_eq!(trace, "args(2): [prog] [-x]");
}

#[test]
fn candidate_is_looked_up_first() {
    let resolver = Resolver::start(&list(&["prog", "/tmp/a.md"]));
    assert!(!resolver.is_done());
    assert_eq!(*resolver.stage(), probing("/tmp/a.md"));
    assert_eq!(resolver.trace(), "args(2): [prog] [/tmp/a.md]");
}

#[test]
fn missing_path_yields_no_file() {
    let resolver = run(&["prog", "/no/such.md"], vec![Answer::Exists(false)]);
    assert!(resolver.is_done());
    let (file, trace) = resolver.finish();
    assert_eq!(file, None);
    assert_eq!(trace, "args(2): [prog] [/no/such.md]\ntry: /no/such.md exists=false");
}

#[test]
fn missing_path_stays_without_file() {
    let resolver = run(
        &["prog", "/no/such.md"],
        vec![Answer::Exists(false), Answer::Exists(true), canonical("/x"), text("late")],
    );
    let (file, trace) = resolver.finish();
    assert_eq!(file, None);
    assert_eq!(trace, "args(2): [prog] [/no/such.md]\ntry: /no/such.md exists=false");
}

#[test]
fn plain_argument_is_resolved() {
    let resolver = run(
        &["prog", "/tmp/a.md"],
        vec![Answer::Exists(true), canonical("/tmp/a.md"), text("hello")],
    );
    assert!(resolver.is_done());
    let (file, trace) = resolver.finish();
    let file = file.unwrap();
    assert_eq!(file.name, "a.md");
    assert_eq!(file.content, "hello");
    assert_eq!(file.path, "/tmp/a.md");
    assert_eq!(
        trace,
        "args(2): [prog] [/tmp/a.md]\ntry: /tmp/a.md exists=true\nread OK: 5 bytes"
    );
}

#[test]
fn leading_flag_is_skipped() {
    let resolver = run(
        &["prog", "-x", "/tmp/a.md"],
        vec![Answer::Exists(true), canonical("/tmp/a.md"), text("hello")],
    );
    let (file, trace) = resolver.finish();
    assert_eq!(
        file,
        Some(ResolvedFile {
            path: "/tmp/a.md".to_string(),
            name: "a.md".to_string(),
            content: "hello".to_string(),
        })
    );
    assert_eq!(
        trace,
        "args(3): [prog] [-x] [/tmp/a.md]\ntry: /tmp/a.md exists=true\nread OK: 5 bytes"
    );
}

#[test]
fn stages_follow_each_other() {
    let resolver = Resolver::start(&list(&["prog", "notes/a.md"]));
    assert_eq!(*resolver.stage(), probing("notes/a.md"));
    let resolver = resolver.step(Answer::Exists(true));
    assert_eq!(*resolver.stage(), locating("notes/a.md"));
    let resolver = resolver.step(canonical("/home/u/notes/a.md"));
    assert_eq!(*resolver.stage(), reading("/home/u/notes/a.md", "a.md"));
    let resolver = resolver.step(text("# title\n"));
    assert_eq!(*resolver.stage(), Stage::Done);
}

#[test]
fn path_is_the_canonical_form() {
    let resolver = run(
        &["prog", "notes/../a.md"],
        vec![Answer::Exists(true), canonical("/home/u/a.md"), text("x")],
    );
    let file = resolver.finish().0.unwrap();
    assert_eq!(file.path, "/home/u/a.md");
    assert_eq!(file.name, "a.md");
}

#[test]
fn falls_back_to_the_argument_without_canonical_form() {
    let resolver = run(
        &["prog", "notes/a.md"],
        vec![Answer::Exists(true), Answer::Canonical(None), text("x")],
    );
    let file = resolver.finish().0.unwrap();
    assert_eq!(file.path, "notes/a.md");
    assert_eq!(file.name, "a.md");
    assert_eq!(file.content, "x");
}

#[test]
fn name_is_the_final_component_not_the_path() {
    let resolver = run(&["prog", "x"], vec![Answer::Exists(true), canonical("/a/b/c.txt")]);
    assert_eq!(*resolver.stage(), reading("/a/b/c.txt", "c.txt"));
    let resolver = run(&["prog", "x"], vec![Answer::Exists(true), canonical("plain.md")]);
    assert_eq!(*resolver.stage(), reading("plain.md", "plain.md"));
    let resolver = run(&["prog", "x"], vec![Answer::Exists(true), canonical("/a/dir/")]);
    assert_eq!(*resolver.stage(), reading("/a/dir/", "dir"));
}

#[test]
fn name_is_empty_for_a_root() {
    let resolver = run(&["prog", "/"], vec![Answer::Exists(true), canonical("/"), text("")]);
    let file = resolver.finish().0.unwrap();
    assert_eq!(file.path, "/");
    assert_eq!(file.name, "");
}

#[test]
fn name_is_empty_where_the_path_ends_in_dots() {
    let resolver = run(
        &["prog", "a/.."],
        vec![Answer::Exists(true), Answer::Canonical(None), failure("Is a directory")],
    );
    assert!(resolver.is_done());
    let resolver = run(&["prog", "a/.."], vec![Answer::Exists(true), Answer::Canonical(None)]);
    assert_eq!(*resolver.stage(), reading("a/..", ""));
}

#[test]
fn locate_takes_the_name_as_given() {
    let resolver = run(&["prog", "a.md"], vec![Answer::Exists(true)]);
    let resolver = resolver.locate("/tmp/a.md".to_string(), Some("shown.md".to_string()));
    assert_eq!(*resolver.stage(), reading("/tmp/a.md", "shown.md"));
    let resolver = run(&["prog", "a.md"], vec![Answer::Exists(true)]);
    let resolver = resolver.locate("/".to_string(), None);
    assert_eq!(*resolver.stage(), reading("/", ""));
}

#[test]
fn locate_out_of_turn_changes_nothing() {
    let resolver = Resolver::start(&list(&["prog", "a.md"]));
    let resolver = resolver.locate("/tmp/a.md".to_string(), Some("a.md".to_string()));
    assert_eq!(*resolver.stage(), probing("a.md"));
    let resolver = run(&["prog"], vec![]);
    let resolver = resolver.locate("/tmp/a.md".to_string(), Some("a.md".to_string()));
    assert_eq!(*resolver.stage(), Stage::Done);
}

#[test]
fn failed_read_yields_no_file() {
    let resolver = run(
        &["prog", "/tmp/a.bin"],
        vec![
            Answer::Exists(true),
            canonical("/tmp/a.bin"),
            failure("stream did not contain valid UTF-8"),
        ],
    );
    assert!(resolver.is_done());
    let (file, trace) = resolver.finish();
    assert_eq!(file, None);
    assert_eq!(
        trace,
        "args(2): [prog] [/tmp/a.bin]\ntry: /tmp/a.bin exists=true\nread ERR: stream did not contain valid UTF-8"
    );
}

#[test]
fn only_the_first_plain_argument_counts() {
    let resolver = run(&["prog", "missing.md", "/tmp/a.md"], vec![Answer::Exists(false)]);
    assert!(resolver.is_done());
    let (file, trace) = resolver.finish();
    assert_eq!(file, None);
    assert_eq!(
        trace,
        "args(3): [prog] [missing.md] [/tmp/a.md]\ntry: missing.md exists=false"
    );
}

#[test]
fn flags_behind_the_candidate_are_not_looked_at() {
    let resolver = Resolver::start(&list(&["prog", "a.md", "-x", "b.md"]));
    assert_eq!(*resolver.stage(), probing("a.md"));
}

#[test]
fn answers_out_of_turn_are_ignored() {
    let resolver = Resolver::start(&list(&["prog", "a.md"]));
    let resolver = resolver.step(text("early"));
    assert_eq!(*resolver.stage(), probing("a.md"));
    let resolver = resolver.step(canonical("/tmp/a.md"));
    assert_eq!(*resolver.stage(), probing("a.md"));
    assert_eq!(resolver.trace(), "args(2): [prog] [a.md]");
    let resolver = resolver.step(Answer::Exists(true));
    let resolver = resolver.step(Answer::Exists(false));
    assert_eq!(*resolver.stage(), locating("a.md"));
    let resolver = resolver.step(text("early"));
    assert_eq!(*resolver.stage(), locating("a.md"));
    let resolver = resolver.step(canonical("/tmp/a.md"));
    let resolver = resolver.step(canonical("/tmp/b.md"));
    let resolver = resolver.step(Answer::Exists(false));
    assert_eq!(*resolver.stage(), reading("/tmp/a.md", "a.md"));
    assert_eq!(resolver.trace(), "args(2): [prog] [a.md]\ntry: a.md exists=true");
}

#[test]
fn a_finished_resolver_keeps_its_file() {
    let resolver = run(
        &["prog", "/tmp/a.md"],
        vec![
            Answer::Exists(true),
            canonical("/tmp/a.md"),
            text("hello"),
            text("other"),
            Answer::Exists(false),
            canonical("/tmp/b.md"),
            failure("late"),
        ],
    );
    let (file, trace) = resolver.finish();
    assert_eq!(file.unwrap().content, "hello");
    assert_eq!(
        trace,
        "args(2): [prog] [/tmp/a.md]\ntry: /tmp/a.md exists=true\nread OK: 5 bytes"
    );
}

#[test]
fn finish_before_the_end_gives_no_file() {
    let resolver = run(&["prog", "a.md"], vec![Answer::Exists(true), canonical("/tmp/a.md")]);
    assert!(!resolver.is_done());
    let (file, trace) = resolver.finish();
    assert_eq!(file, None);
    assert_eq!(trace, "args(2): [prog] [a.md]\ntry: a.md exists=true");
}

#[test]
fn same_file_resolves_alike_twice() {
    let answers = || vec![Answer::Exists(true), canonical("/tmp/a.md"), text("hello")];
    let first = run(&["prog", "/tmp/a.md"], answers()).finish().0;
    let second = run(&["prog", "/tmp/a.md"], answers()).finish().0;
    assert!(first.is_some());
    assert_eq!(first, second);
}

#[test]
fn same_candidate_resolves_alike_whatever_surrounds_it() {
    let answers = || vec![Answer::Exists(true), canonical("/tmp/a.md"), text("hello")];
    let bare = run(&["prog", "a.md"], answers()).finish().0;
    let flagged = run(&["other", "-v", "--x", "a.md", "b.md", "-z"], answers()).finish().0;
    assert!(bare.is_some());
    assert_eq!(bare, flagged);
}

#[test]
fn resolved_file_reaches_the_interface_once() {
    let resolver = run(
        &["prog", "/tmp/a.md"],
        vec![Answer::Exists(true), canonical("/tmp/a.md"), text("hello")],
    );
    let mut slot = PendingFileSlot::new(resolver.finish().0);
    let first = slot.take().unwrap();
    assert_eq!(first.name, "a.md");
    assert_eq!(first.content, "hello");
    assert_eq!(slot.take(), None);
}

#[test]
fn text_with_wide_characters_is_counted_in_bytes() {
    let resolver = run(
        &["prog", "\u{fc}.md"],
        vec![Answer::Exists(true), canonical("/tmp/\u{fc}.md"), text("gr\u{fc}\u{df}e")],
    );
    let (file, trace) = resolver.finish();
    let file = file.unwrap();
    assert_eq!(file.name, "\u{fc}.md");
    assert_eq!(file.content, "gr\u{fc}\u{df}e");
    assert_eq!(
        trace,
        "args(2): [prog] [\u{fc}.md]\ntry: \u{fc}.md exists=true\nread OK: 7 bytes"
    );
}
