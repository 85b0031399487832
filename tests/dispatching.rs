use maid_sweeper::config::MaidConfig;
use maid_sweeper::context::SimpleContext;
use maid_sweeper::datatype::{FileMeta, FileMetaCompat};
use maid_sweeper::dispatch::{
    find_shell, shell_candidates, wrap_error, Choice, ChoiceResult, Exec, Move, Operation,
    ProcessError, Tag, Task,
};
use maid_sweeper::patterns::{load_patterns, FilenamePattern, PatternDocument, Patterns};
use maid_sweeper::template::{render_argument, render_command, PathParts};
use maid_sweeper::walk::{Directory, ScanEvent, ScanStep};

fn s(x: &str) -> String {
    x.to_string()
}

fn strings(xs: &[&str]) -> Vec<String> {
    xs.iter().map(|x| x.to_string()).collect()
}

fn config() -> MaidConfig {
    MaidConfig {
        debug: false,
        use_mongodb: false,
        mongodb_host: s("mongodb://localhost:27017"),
        config_file: None,
        tags: None,
        paths: None,
        hidden: false,
        copy_to: None,
        save: false,
        exec_args: None,
        move_to: None,
        delete: false,
    }
}

fn empty_table() -> Patterns {
    let doc = PatternDocument { typical_files: vec![], extensions: vec![], filenames: vec![], synonyms: vec![] };
    match load_patterns(&doc) {
        Ok(p) => p,
        Err(_) => panic!("the empty table compiles"),
    }
}

fn walk_table() -> Patterns {
    let doc = PatternDocument {
        typical_files: vec![(s("rust"), strings(&["^Cargo\\.toml$"]))],
        extensions: vec![(s("text"), strings(&["txt"]))],
        filenames: vec![FilenamePattern { tags: strings(&["notes", "personal"]), pattern: s("^notes\\.txt$") }],
        synonyms: vec![],
    };
    match load_patterns(&doc) {
        Ok(p) => p,
        Err(_) => panic!("the table compiles"),
    }
}

fn meta(path: &str, tags: Option<Vec<&str>>) -> FileMeta {
    FileMeta { path: s(path), tags: tags.map(|t| strings(&t)), last_modified: None }
}

fn message(e: ProcessError) -> String {
    e.message
}

#[test]
fn typical_file_tags_whole_directory() {
    let p = walk_table();
    let mut dir = Directory::new(s("/proj"));
    assert!(matches!(dir.step(&p, ScanEvent::Entry(s("/proj/readme.txt"))), ScanStep::Deferred));
    match dir.step(&p, ScanEvent::Entry(s("/proj/Cargo.toml"))) {
        ScanStep::TagDirectory(t) => assert_eq!(t, strings(&["rust"])),
        _ => panic!("Cargo.toml is typical of a rust directory"),
    }
    assert!(matches!(dir.step(&p, ScanEvent::Entry(s("/proj/main.txt"))), ScanStep::Closed));
    assert!(matches!(dir.step(&p, ScanEvent::End), ScanStep::Closed));
}

#[test]
fn special_file_dispatched_with_rule_tags() {
    let p = walk_table();
    let mut dir = Directory::new(s("/home"));
    match dir.step(&p, ScanEvent::Entry(s("/home/notes.txt"))) {
        ScanStep::DispatchSpecial(t) => assert_eq!(t, strings(&["notes", "personal"])),
        _ => panic!("notes.txt is a special file"),
    }
    assert!(matches!(dir.step(&p, ScanEvent::Entry(s("/home/todo.txt"))), ScanStep::Deferred));
    match dir.step(&p, ScanEvent::End) {
        ScanStep::SecondPass(rest) => assert_eq!(rest, strings(&["/home/todo.txt"])),
        _ => panic!("the pass ends"),
    }
    assert!(matches!(dir.step(&p, ScanEvent::End), ScanStep::Closed));
}

#[test]
fn listing_error_ends_first_pass() {
    let p = walk_table();
    let mut dir = Directory::new(s("/d"));
    assert!(matches!(dir.step(&p, ScanEvent::Entry(s("/d/a.txt"))), ScanStep::Deferred));
    assert!(matches!(dir.step(&p, ScanEvent::Entry(s("/d/sub"))), ScanStep::Deferred));
    match dir.step(&p, ScanEvent::ListingFailed) {
        ScanStep::SecondPass(rest) => assert_eq!(rest, strings(&["/d/a.txt", "/d/sub"])),
        _ => panic!("the pass ends"),
    }
}

#[test]
fn empty_directory_has_empty_second_pass() {
    let p = walk_table();
    let mut dir = Directory::new(s("/empty"));
    match dir.step(&p, ScanEvent::End) {
        ScanStep::SecondPass(rest) => assert!(rest.is_empty()),
        _ => panic!("the pass ends"),
    }
}

#[test]
fn hidden_file_follows_flag() {
    let mut c = config();
    c.delete = true;
    let ctx = SimpleContext::new(c, empty_table());
    assert!(matches!(Choice.process(&ctx, &meta("/d/.hidden", Some(vec!["misc"]))), ChoiceResult::SkippedHidden));
    let mut c = config();
    c.delete = true;
    c.hidden = true;
    let ctx = SimpleContext::new(c, empty_table());
    assert!(matches!(
        Choice.process(&ctx, &meta("/d/.hidden", Some(vec!["misc"]))),
        ChoiceResult::Run(Task::Delete)
    ));
}

#[test]
fn action_precedence() {
    let mut c = config();
    c.copy_to = Some(s("/out"));
    c.save = true;
    c.move_to = Some(s("/moved"));
    c.exec_args = Some(strings(&["echo"]));
    c.delete = true;
    let ctx = SimpleContext::new(c, empty_table());
    match Choice.process(&ctx, &meta("/d/a.txt", None)) {
        ChoiceResult::Run(Task::Copy(d)) => assert_eq!(d, "/out"),
        _ => panic!("copy comes first"),
    }
    let mut c = config();
    c.save = true;
    c.move_to = Some(s("/moved"));
    let ctx = SimpleContext::new(c, empty_table());
    assert!(matches!(Choice.process(&ctx, &meta("/d/a.txt", None)), ChoiceResult::Run(Task::Tag)));
    let mut c = config();
    c.move_to = Some(s("/moved"));
    c.exec_args = Some(strings(&["echo"]));
    let ctx = SimpleContext::new(c, empty_table());
    match Choice.process(&ctx, &meta("/d/a.txt", None)) {
        ChoiceResult::Run(Task::Move(d)) => assert_eq!(d, "/moved"),
        _ => panic!("move comes before exec"),
    }
    let mut c = config();
    c.exec_args = Some(strings(&["echo"]));
    c.delete = true;
    let ctx = SimpleContext::new(c, empty_table());
    assert!(matches!(Choice.process(&ctx, &meta("/d/a.txt", None)), ChoiceResult::Run(Task::Exec)));
    let ctx = SimpleContext::new(config(), empty_table());
    assert!(matches!(Choice.process(&ctx, &meta("/d/a.txt", None)), ChoiceResult::NoTask));
}

#[test]
fn path_placeholder_is_quoted() {
    let parts = PathParts::of(&s("/a/b c.txt"));
    assert_eq!(render_argument(&s("{}"), &parts, &vec![]), "\"/a/b c.txt\"");
    assert_eq!(render_argument(&s("|"), &parts, &vec![]), "|");
}

#[test]
fn shell_operators_pass_through() {
    let parts = PathParts::of(&s("/a/b.txt"));
    for op in ["|", "&", "&&", "<", ">", ">>", "<<"] {
        assert_eq!(render_argument(&s(op), &parts, &vec![]), op);
    }
    assert_eq!(render_argument(&s("||"), &parts, &vec![]), "\"||\"");
}

#[test]
fn every_placeholder_is_replaced() {
    let parts = PathParts::of(&s("/a/b.tar.gz"));
    let tags = strings(&["x", "y"]);
    assert_eq!(render_argument(&s("{.}"), &parts, &tags), "\"/a/b.tar\"");
    assert_eq!(render_argument(&s("{/.}"), &parts, &tags), "\"b.tar\"");
    assert_eq!(render_argument(&s("{//}"), &parts, &tags), "\"/a\"");
    assert_eq!(render_argument(&s("{/}"), &parts, &tags), "\"b.tar.gz\"");
    assert_eq!(render_argument(&s("{0}"), &parts, &tags), "\"#x#y\"");
    assert_eq!(render_argument(&s("{1}-{2}-{3}"), &parts, &tags), "\"x-y-\"");
    assert_eq!(render_argument(&s("{/}:{}"), &parts, &tags), "\"b.tar.gz:/a/b.tar.gz\"");
}

#[test]
fn tag_placeholders_without_tags() {
    let parts = PathParts::of(&s("/a/b.txt"));
    assert_eq!(render_argument(&s("[{1}{2}{3}]"), &parts, &vec![]), "\"[]\"");
    assert_eq!(render_argument(&s("{0}"), &parts, &vec![]), "\"#\"");
}

#[test]
fn quotes_and_backslashes_are_escaped() {
    let parts = PathParts::of(&s("/a/b.txt"));
    assert_eq!(render_argument(&s("say \"hi\" \\"), &parts, &vec![]), "\"say \\\"hi\\\" \\\\\"");
    let parts = PathParts::of(&s("/a/it\"s.txt"));
    assert_eq!(render_argument(&s("{}"), &parts, &vec![]), "\"/a/it\\\"s.txt\"");
}

#[test]
fn command_line_joins_arguments() {
    let parts = PathParts::of(&s("/a/b c.txt"));
    let args = strings(&["wc", "-l", "{}", "|", "sort"]);
    assert_eq!(render_command(&args, &parts, &vec![]), "\"wc\" \"-l\" \"/a/b c.txt\" | \"sort\"");
    assert_eq!(render_command(&vec![], &parts, &vec![]), "");
}

#[test]
fn exec_builds_shell_command() {
    let mut c = config();
    c.exec_args = Some(strings(&["echo", "{1}", "{}"]));
    let ctx = SimpleContext::new(c, empty_table());
    let shell = Some((s("/bin/sh"), s("-c")));
    match Exec.process(&ctx, &meta("/d/a.txt", Some(vec!["text"])), &shell) {
        Ok(cmd) => {
            assert_eq!(cmd.program, "/bin/sh");
            assert_eq!(cmd.args, strings(&["-c", "\"echo\" \"text\" \"/d/a.txt\""]));
        },
        Err(_) => panic!("the command can be built"),
    }
}

#[test]
fn exec_errors() {
    let ctx = SimpleContext::new(config(), empty_table());
    let shell = Some((s("/bin/sh"), s("-c")));
    match Exec.process(&ctx, &meta("/d/a.txt", None), &shell) {
        Err(e) => assert_eq!(message(e), "No exec arguments provided"),
        Ok(_) => panic!("there is no template"),
    }
    let mut c = config();
    c.exec_args = Some(vec![]);
    let ctx = SimpleContext::new(c, empty_table());
    match Exec.process(&ctx, &meta("/d/a.txt", None), &shell) {
        Err(e) => assert_eq!(message(e), "No exec arguments provided"),
        Ok(_) => panic!("the template is empty"),
    }
    let mut c = config();
    c.exec_args = Some(strings(&["ls"]));
    let ctx = SimpleContext::new(c, empty_table());
    match Exec.process(&ctx, &meta("/d/a.txt", None), &None) {
        Err(e) => assert_eq!(message(e), "No shell found!"),
        Ok(_) => panic!("there is no shell"),
    }
}

#[test]
fn tag_twice_gives_two_records() {
    let m = meta("/d/a.jpg", Some(vec!["image"]));
    let mut store: Vec<FileMetaCompat> = Vec::new();
    for _ in 0..2 {
        match Tag.process(&m) {
            Ok(r) => store.push(r),
            Err(_) => panic!("the entry has tags"),
        }
    }
    assert_eq!(store.len(), 2);
    for r in &store {
        assert_eq!(r.path, "/d/a.jpg");
        assert_eq!(r.tags, strings(&["image"]));
        assert_eq!(r.last_modified, 0);
    }
}

#[test]
fn tag_needs_tags() {
    match Tag.process(&meta("/d/a.jpg", None)) {
        Err(e) => assert_eq!(message(e), "No tags provided"),
        Ok(_) => panic!("no tags"),
    }
    match Tag.process(&meta("/d/a.jpg", Some(vec![]))) {
        Err(e) => assert_eq!(message(e), "No tags provided"),
        Ok(_) => panic!("empty tags"),
    }
}

#[test]
fn copy_move_delete_plans() {
    let m = meta("/d/a.jpg", Some(vec!["image", "web"]));
    match Move::new(Operation::Copy(s("/out"))).process(&m, false) {
        Ok(plan) => {
            assert_eq!(plan.target_dir, Some(s("/out/image")));
            assert_eq!(plan.subdir, "image");
            assert_eq!(plan.command.program, "cp");
            assert_eq!(plan.command.args, strings(&["-r", "/d/a.jpg", "/out/image"]));
        },
        Err(_) => panic!("copy has a tag"),
    }
    match Move::new(Operation::Copy(s("/out"))).process(&m, true) {
        Ok(plan) => {
            assert_eq!(plan.command.program, "xcopy");
            assert_eq!(plan.command.args.len(), 2);
        },
        Err(_) => panic!("copy has a tag"),
    }
    match Move::new(Operation::Move(s("/moved"))).process(&m, false) {
        Ok(plan) => {
            assert_eq!(plan.command.program, "mv");
            assert_eq!(plan.command.args, strings(&["/d/a.jpg", "/moved/image"]));
        },
        Err(_) => panic!("move has a tag"),
    }
    match Move::new(Operation::Remove).process(&m, false) {
        Ok(plan) => {
            assert_eq!(plan.target_dir, None);
            assert_eq!(plan.command.program, "rm");
            assert_eq!(plan.command.args, strings(&["-rf", "/d/a.jpg"]));
        },
        Err(_) => panic!("delete has a tag"),
    }
    match Move::new(Operation::Remove).process(&m, true) {
        Ok(plan) => {
            assert_eq!(plan.command.program, "del");
            assert_eq!(plan.command.args, strings(&["/f", "/q", "/d/a.jpg"]));
        },
        Err(_) => panic!("delete has a tag"),
    }
}

#[test]
fn transfer_needs_a_tag() {
    match Move::new(Operation::Move(s("/moved"))).process(&meta("/x", None), false) {
        Err(e) => assert_eq!(message(e), "No tags available for /x"),
        Ok(_) => panic!("no tags"),
    }
    match Move::new(Operation::Remove).process(&meta("/x", Some(vec![])), false) {
        Err(e) => assert_eq!(message(e), "No tags available for /x"),
        Ok(_) => panic!("empty tags"),
    }
}

#[test]
fn shell_lookup() {
    let candidates = vec![(s(""), false), (s("/bin/zsh"), false), (s("/bin/bash"), true), (s("/bin/sh"), true)];
    assert_eq!(find_shell(&candidates, &s("")), Some((s("/bin/bash"), s("-c"))));
    let candidates = vec![(s("C:\\Windows\\cmd.exe"), true)];
    assert_eq!(
        find_shell(&candidates, &s("C:\\Windows\\cmd.exe")),
        Some((s("C:\\Windows\\cmd.exe"), s("/c")))
    );
    assert_eq!(find_shell(&vec![(s("/bin/sh"), false)], &s("")), None);
    assert_eq!(
        shell_candidates("/usr/bin/fish", ""),
        strings(&["/usr/bin/fish", "", "/bin/zsh", "/bin/bash", "/bin/ash", "/bin/sh"])
    );
}

#[test]
fn io_error_message() {
    assert_eq!(message(wrap_error("permission denied")), "IO Error: permission denied");
    assert_eq!(message(ProcessError::new("Command failed")), "Command failed");
}

#[test]
fn record_from_entry() {
    let r = FileMeta { path: s("/d/a"), tags: None, last_modified: None }.into_compat();
    assert_eq!(r.path, "/d/a");
    assert!(r.tags.is_empty());
    assert_eq!(r.last_modified, 0);
    let r = FileMeta { path: s("/d/b"), tags: Some(strings(&["x"])), last_modified: Some(42) }.into_compat();
    assert_eq!(r.tags, strings(&["x"]));
    assert_eq!(r.last_modified, 42);
}
