//! The action dispatcher and the actions. `Choice` picks the one action a
//! classified entry goes to; each action turns the entry into the work to
//! be done: a record to store, a shell command to run, or a copy, move or
//! delete command.
use vstd::prelude::*;
use crate::config::MaidConfig;
use crate::context::SimpleContext;
use crate::datatype::{FileMeta, FileMetaCompat};
use crate::paths::{file_name, join, path_file_name, path_joined};
use crate::template::{command_line, render_command, PathParts};
use crate::text::{clone_texts, concat_text, opt_texts, starts_with_char, texts};

verus! {

/// Why an action could not run.
pub struct ProcessError {
    pub message: String,
}

impl ProcessError {
    /// An error with this message.
    pub fn new(message: &str) -> (r: ProcessError)
        ensures
            r.message@ == message@,
    {
        ProcessError { message: String::from_str(message) }
    }
}

/// An error of the file system or of a child process, with its description.
pub fn wrap_error(description: &str) -> (r: ProcessError)
    ensures
        r.message@ == "IO Error: "@ + description@,
{
    ProcessError { message: concat_text("IO Error: ", description) }
}

/// The action a run takes on each classified entry.
pub enum Task {
    /// Copy the entry under this directory.
    Copy(String),
    /// Store the entry's tags.
    Tag,
    /// Move the entry under this directory.
    Move(String),
    /// Run the exec template on the entry.
    Exec,
    /// Delete the entry.
    Delete,
}

pub enum TaskModel {
    Copy(Seq<char>),
    Tag,
    Move(Seq<char>),
    Exec,
    Delete,
}

impl View for Task {
    type V = TaskModel;

    open spec fn view(&self) -> TaskModel {
        match self {
            Task::Copy(d) => TaskModel::Copy(d@),
            Task::Tag => TaskModel::Tag,
            Task::Move(d) => TaskModel::Move(d@),
            Task::Exec => TaskModel::Exec,
            Task::Delete => TaskModel::Delete,
        }
    }
}

/// The action a configuration selects, by fixed precedence: copy, store,
/// move, exec, delete.
pub open spec fn selected_task(c: MaidConfig) -> Option<TaskModel> {
    if c.copy_to is Some {
        Some(TaskModel::Copy(c.copy_to->0@))
    } else if c.save {
        Some(TaskModel::Tag)
    } else if c.move_to is Some {
        Some(TaskModel::Move(c.move_to->0@))
    } else if c.exec_args is Some {
        Some(TaskModel::Exec)
    } else if c.delete {
        Some(TaskModel::Delete)
    } else {
        None
    }
}

/// Whether a file name marks a hidden entry.
pub open spec fn is_hidden_name(name: Seq<char>) -> bool {
    name.len() > 0 && name[0] == '.'
}

pub enum ChoiceModel {
    SkippedHidden,
    NoTask,
    Run(TaskModel),
}

/// What the dispatcher does with the entry at `path`.
pub open spec fn dispatch_choice(c: MaidConfig, path: Seq<char>) -> ChoiceModel {
    if is_hidden_name(path_file_name(path)) && !c.hidden {
        ChoiceModel::SkippedHidden
    } else {
        match selected_task(c) {
            Some(t) => ChoiceModel::Run(t),
            None => ChoiceModel::NoTask,
        }
    }
}

/// The dispatcher's decision for one entry.
pub enum ChoiceResult {
    /// A hidden entry, and hidden entries are not considered: nothing to do.
    SkippedHidden,
    /// The configuration selects no action.
    NoTask,
    /// Run this action on the entry.
    Run(Task),
}

impl View for ChoiceResult {
    type V = ChoiceModel;

    open spec fn view(&self) -> ChoiceModel {
        match self {
            ChoiceResult::SkippedHidden => ChoiceModel::SkippedHidden,
            ChoiceResult::NoTask => ChoiceModel::NoTask,
            ChoiceResult::Run(t) => ChoiceModel::Run(t@),
        }
    }
}

fn selected(config: &MaidConfig) -> (r: Option<Task>)
    ensures
        match r {
            Some(t) => selected_task(*config) == Some(t@),
            None => selected_task(*config) is None,
        },
{
    if let Some(dest) = &config.copy_to {
        Some(Task::Copy(dest.clone()))
    } else if config.save {
        Some(Task::Tag)
    } else if let Some(dest) = &config.move_to {
        Some(Task::Move(dest.clone()))
    } else if config.exec_args.is_some() {
        Some(Task::Exec)
    } else if config.delete {
        Some(Task::Delete)
    } else {
        None
    }
}

/// The action dispatcher.
pub struct Choice;

impl Choice {
    /// Picks the action for the entry at `file_meta.path`: none for a hidden
    /// entry unless hidden entries are considered, else the one the
    /// configuration selects.
    pub fn process(&self, context: &SimpleContext, file_meta: &FileMeta) -> (r: ChoiceResult)
        ensures
            r@ == dispatch_choice(context.spec_config(), file_meta.path@),
    {
        let config = context.get_config();
        let name = file_name(file_meta.path.as_str());
        if starts_with_char(name.as_str(), '.') && !config.hidden {
            return ChoiceResult::SkippedHidden;
        }
        match selected(config) {
            Some(t) => ChoiceResult::Run(t),
            None => ChoiceResult::NoTask,
        }
    }
}

/// Whether an entry carries at least one tag.
pub open spec fn has_tags(tags: Option<Seq<Seq<char>>>) -> bool {
    tags matches Some(t) && t.len() > 0
}

/// The action that stores an entry's tags.
pub struct Tag;

impl Tag {
    /// The record to insert for the entry: its path, its tags, and 0 for an
    /// unknown modification time. Each call gives a new record to insert;
    /// nothing is looked up first.
    pub fn process(&self, file_meta: &FileMeta) -> (r: Result<FileMetaCompat, ProcessError>)
        ensures
            r is Ok <==> has_tags(opt_texts(file_meta.tags)),
            r matches Ok(rec) ==> Some(rec.model()) == match opt_texts(file_meta.tags) {
                Some(t) => Some(tag_record(file_meta.path@, t)),
                None => None,
            },
            r matches Err(e) ==> e.message@ == "No tags provided"@,
    {
        match &file_meta.tags {
            Some(tags) => {
                if tags.len() == 0 {
                    return Err(ProcessError::new("No tags provided"));
                }
                Ok(
                    FileMetaCompat {
                        path: file_meta.path.clone(),
                        tags: clone_texts(tags),
                        last_modified: 0,
                    },
                )
            },
            None => Err(ProcessError::new("No tags provided")),
        }
    }
}

/// A program to start with its arguments.
pub struct ShellCommand {
    pub program: String,
    pub args: Vec<String>,
}

/// The tags of an entry, or none.
pub open spec fn tags_or_empty(tags: Option<Seq<Seq<char>>>) -> Seq<Seq<char>> {
    match tags {
        Some(t) => t,
        None => Seq::empty(),
    }
}

/// The parts of a path as the templating engine reads them.
pub open spec fn parts_model(parts: PathParts, path: Seq<char>) -> bool {
    &&& parts.path@ == path
    &&& parts.name@ == path_file_name(path)
    &&& parts.parent@ == crate::paths::path_parent(path)
    &&& parts.stem@ == crate::paths::path_file_stem(path)
    &&& parts.without_ext@ == crate::paths::path_without_extension(path)
}

/// The action that runs the exec template through a shell.
pub struct Exec;

impl Exec {
    /// The shell command for the entry: `shell` is the shell program found
    /// on this machine and the flag that makes it run one command line
    /// (`None` where there is none). The command line renders the exec
    /// template with the entry's path and tags.
    pub fn process(
        &self,
        context: &SimpleContext,
        file_meta: &FileMeta,
        shell: &Option<(String, String)>,
    ) -> (r: Result<ShellCommand, ProcessError>)
        ensures
            r is Ok <==> (context.spec_config().exec_args matches Some(a) && a@.len() > 0
                && shell is Some),
            r matches Err(e) ==> (if context.spec_config().exec_args matches Some(a) && a@.len() > 0 {
                e.message@ == "No shell found!"@
            } else {
                e.message@ == "No exec arguments provided"@
            }),
            r matches Ok(cmd) ==> exists|parts: PathParts|
                {
                    &&& parts_model(parts, file_meta.path@)
                    &&& *shell matches Some(s)
                    &&& cmd.program@ == s.0@
                    &&& texts(cmd.args@) == seq![
                        s.1@,
                        command_line(
                            texts(context.spec_config().exec_args->0@),
                            parts,
                            tags_or_empty(opt_texts(file_meta.tags)),
                        ),
                    ]
                },
    {
        let args = match &context.get_config().exec_args {
            Some(a) => {
                if a.len() == 0 {
                    return Err(ProcessError::new("No exec arguments provided"));
                }
                a
            },
            None => {
                return Err(ProcessError::new("No exec arguments provided"));
            },
        };
        let (program, flag) = match shell {
            Some(s) => s,
            None => {
                return Err(ProcessError::new("No shell found!"));
            },
        };
        let parts = PathParts::of(&file_meta.path);
        let tags = match &file_meta.tags {
            Some(t) => clone_texts(t),
            None => Vec::new(),
        };
        proof {
            if file_meta.tags is None {
                assert(texts(tags@) =~= Seq::<Seq<char>>::empty());
            }
        }
        let line = render_command(args, &parts, &tags);
        let mut cmd_args: Vec<String> = Vec::new();
        cmd_args.push(flag.clone());
        cmd_args.push(line);
        assert(texts(cmd_args@) =~= seq![flag@, line@]);
        assert(parts_model(parts, file_meta.path@));
        assert(tags_or_empty(opt_texts(file_meta.tags)) == texts(tags@));
        Ok(ShellCommand { program: program.clone(), args: cmd_args })
    }
}

/// What the copy/move/delete action does to an entry.
pub enum Operation {
    /// Copy it under this directory.
    Copy(String),
    /// Move it under this directory.
    Move(String),
    /// Delete it.
    Remove,
}

/// The work of a copy, move or delete: the directory to create first, if
/// any, and the command to run.
pub struct TransferPlan {
    /// The directory the entry goes into; it is created where missing.
    pub target_dir: Option<String>,
    /// The entry's first tag, the name of that directory under its root.
    pub subdir: String,
    /// The system utility to run, and its arguments.
    pub command: ShellCommand,
}

/// The action that copies, moves or deletes an entry.
pub struct Move {
    op: Operation,
}

impl Move {
    pub closed spec fn operation(&self) -> Operation {
        self.op
    }

    pub fn new(op: Operation) -> (r: Move)
        ensures
            r.operation() == op,
    {
        Move { op }
    }

    /// The plan for the entry. Copy and move put it in the subdirectory of
    /// the destination named by its first tag; the utilities are those of
    /// Windows where `windows` holds, else the POSIX ones (`cp -r`, `mv`,
    /// `rm -rf`).
    pub fn process(&self, file_meta: &FileMeta, windows: bool) -> (r: Result<TransferPlan, ProcessError>)
        ensures
            r is Ok <==> has_tags(opt_texts(file_meta.tags)),
            r matches Err(e) ==> e.message@ == "No tags available for "@ + file_meta.path@,
            r matches Ok(plan) ==> {
                let tag = file_meta.tags->0@[0]@;
                let src = file_meta.path@;
                &&& plan.subdir@ == tag
                &&& match self.operation() {
                    Operation::Copy(d) => {
                        let target = path_joined(d@, tag);
                        &&& plan.target_dir == Some(plan.command.args@.last())
                        &&& plan.command.args@.last()@ == target
                        &&& if windows {
                            plan.command.program@ == "xcopy"@ && texts(plan.command.args@) == seq![src, target]
                        } else {
                            plan.command.program@ == "cp"@ && texts(plan.command.args@) == seq![
                                "-r"@,
                                src,
                                target,
                            ]
                        }
                    },
                    Operation::Move(d) => {
                        let target = path_joined(d@, tag);
                        &&& plan.target_dir == Some(plan.command.args@.last())
                        &&& plan.command.args@.last()@ == target
                        &&& plan.command.program@ == (if windows {
                            "move"@
                        } else {
                            "mv"@
                        })
                        &&& texts(plan.command.args@) == seq![src, target]
                    },
                    Operation::Remove => {
                        &&& plan.target_dir is None
                        &&& if windows {
                            plan.command.program@ == "del"@ && texts(plan.command.args@) == seq![
                                "/f"@,
                                "/q"@,
                                src,
                            ]
                        } else {
                            plan.command.program@ == "rm"@ && texts(plan.command.args@) == seq![
                                "-rf"@,
                                src,
                            ]
                        }
                    },
                }
            },
    {
        let subdir = match &file_meta.tags {
            Some(t) => {
                if t.len() == 0 {
                    return Err(ProcessError { message: concat_text("No tags available for ", file_meta.path.as_str()) });
                }
                t[0].clone()
            },
            None => {
                return Err(ProcessError { message: concat_text("No tags available for ", file_meta.path.as_str()) });
            },
        };
        let src = file_meta.path.clone();
        let mut args: Vec<String> = Vec::new();
        let (program, target_dir) = match &self.op {
            Operation::Copy(dest) => {
                let target = join(dest.as_str(), subdir.as_str());
                if windows {
                    args.push(src);
                    args.push(target.clone());
                    (String::from_str("xcopy"), Some(target))
                } else {
                    args.push(String::from_str("-r"));
                    args.push(src);
                    args.push(target.clone());
                    (String::from_str("cp"), Some(target))
                }
            },
            Operation::Move(dest) => {
                let target = join(dest.as_str(), subdir.as_str());
                args.push(src);
                args.push(target.clone());
                if windows {
                    (String::from_str("move"), Some(target))
                } else {
                    (String::from_str("mv"), Some(target))
                }
            },
            Operation::Remove => {
                if windows {
                    args.push(String::from_str("/f"));
                    args.push(String::from_str("/q"));
                    args.push(src);
                    (String::from_str("del"), None)
                } else {
                    args.push(String::from_str("-rf"));
                    args.push(src);
                    (String::from_str("rm"), None)
                }
            },
        };
        assert(texts(args@) =~= args@.map_values(|s: String| s@));
        Ok(TransferPlan { target_dir, subdir, command: ShellCommand { program, args } })
    }
}

/// The shells to look for, in order: the `SHELL` and `COMSPEC` settings of
/// the environment (empty where unset), then the usual POSIX shells.
pub fn shell_candidates(shell_env: &str, comspec_env: &str) -> (r: Vec<String>)
    ensures
        texts(r@) == seq![
            shell_env@,
            comspec_env@,
            "/bin/zsh"@,
            "/bin/bash"@,
            "/bin/ash"@,
            "/bin/sh"@,
        ],
{
    let mut r: Vec<String> = Vec::new();
    r.push(String::from_str(shell_env));
    r.push(String::from_str(comspec_env));
    r.push(String::from_str("/bin/zsh"));
    r.push(String::from_str("/bin/bash"));
    r.push(String::from_str("/bin/ash"));
    r.push(String::from_str("/bin/sh"));
    assert(texts(r@) =~= seq![
        shell_env@,
        comspec_env@,
        "/bin/zsh"@,
        "/bin/bash"@,
        "/bin/ash"@,
        "/bin/sh"@,
    ]);
    r
}

/// The index of the first candidate that exists, from `i` on.
pub open spec fn first_present_from(candidates: Seq<(Seq<char>, bool)>, i: int) -> Option<int>
    decreases candidates.len() - i,
{
    if i < 0 || i >= candidates.len() {
        None
    } else if candidates[i].1 {
        Some(i)
    } else {
        first_present_from(candidates, i + 1)
    }
}

/// The flag that makes a shell run one command line: `/c` for the Windows
/// command interpreter named by `COMSPEC`, `-c` for any other.
pub open spec fn command_flag(shell: Seq<char>, comspec: Seq<char>) -> Seq<char> {
    if shell == comspec {
        "/c"@
    } else {
        "-c"@
    }
}

/// The shell to run commands with, and its flag for one command line:
/// the first of `candidates` (each a path and whether it exists) that
/// exists.
pub fn find_shell(candidates: &Vec<(String, bool)>, comspec: &String) -> (r: Option<(String, String)>)
    ensures
        match first_present_from(candidates@.map_values(|c: (String, bool)| (c.0@, c.1)), 0) {
            Some(i) => r matches Some(s) && s.0@ == candidates@[i].0@ && s.1@ == command_flag(
                candidates@[i].0@,
                comspec@,
            ),
            None => r is None,
        },
{
    let ghost m = candidates@.map_values(|c: (String, bool)| (c.0@, c.1));
    let mut i: usize = 0;
    while i < candidates.len()
        invariant
            i <= candidates@.len(),
            m == candidates@.map_values(|c: (String, bool)| (c.0@, c.1)),
            first_present_from(m, 0) == first_present_from(m, i as int),
        decreases candidates.len() - i,
    {
        let (path, present) = &candidates[i];
        if *present {
            let flag = if *path == *comspec {
                String::from_str("/c")
            } else {
                String::from_str("-c")
            };
            return Some((path.clone(), flag));
        }
        i = i + 1;
    }
    None
}

/// An entry whose name starts with a dot is skipped exactly when hidden
/// entries are not considered; with them considered it is dispatched like
/// any other.
pub proof fn hidden_entries_follow_the_flag(c: MaidConfig, path: Seq<char>)
    requires
        is_hidden_name(path_file_name(path)),
    ensures
        (dispatch_choice(c, path) is SkippedHidden) <==> !c.hidden,
        c.hidden ==> dispatch_choice(c, path) == match selected_task(c) {
            Some(t) => ChoiceModel::Run(t),
            None => ChoiceModel::NoTask,
        },
{
}

/// A store record as plain values.
pub struct RecordModel {
    pub path: Seq<char>,
    pub tags: Seq<Seq<char>>,
    pub last_modified: u64,
}

impl FileMetaCompat {
    pub open spec fn model(&self) -> RecordModel {
        RecordModel { path: self.path@, tags: texts(self.tags@), last_modified: self.last_modified }
    }
}

/// The record the Tag action gives for an entry with these tags.
pub open spec fn tag_record(path: Seq<char>, tags: Seq<Seq<char>>) -> RecordModel {
    RecordModel { path, tags, last_modified: 0 }
}

/// The records of one Tag run over entries (path and tags each).
pub open spec fn tag_run(entries: Seq<(Seq<char>, Seq<Seq<char>>)>) -> Seq<RecordModel> {
    entries.map_values(|e: (Seq<char>, Seq<Seq<char>>)| tag_record(e.0, e.1))
}

/// Tagging is not deduplicated. The Tag action gives a record from the
/// entry alone (see `Tag::process`) and the store keeps every record
/// inserted, so two runs over the same entries leave each entry's record in
/// the store twice, at two places.
pub proof fn tagging_twice_keeps_both(
    store: Seq<RecordModel>,
    entries: Seq<(Seq<char>, Seq<Seq<char>>)>,
)
    ensures
        ({
            let after = store + tag_run(entries) + tag_run(entries);
            &&& after.len() == store.len() + 2 * entries.len()
            &&& forall|i: int|
                0 <= i < entries.len() ==> after[store.len() + i] == tag_record(
                    entries[i].0,
                    entries[i].1,
                ) && after[store.len() + entries.len() + i] == tag_record(
                    entries[i].0,
                    entries[i].1,
                )
        }),
{
}

} // verus!
