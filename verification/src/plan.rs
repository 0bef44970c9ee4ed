//! Plans: a command's side effects as data. The library decides; a thin
//! front end performs the actions in order and stops at the first failure.
//! In a dry run every mutating action is replaced by a note stating the
//! intent, so a dry plan carries no mutation at all.

use vstd::prelude::*;

use crate::strutil::{join_sep, join_strs, views_of};

verus! {

/// One externally visible step of a plan. The `err_spawn` and `err_exit`
/// texts name a failed run; an `err_prefix` opens a file-operation error,
/// ahead of the I/O detail.
pub enum Action {
    /// Run a program with arguments and extra environment entries, and fail
    /// on a non-zero exit.
    Run {
        program: String,
        args: Vec<String>,
        envs: Vec<(String, String)>,
        err_spawn: String,
        err_exit: String,
    },
    /// Write a file, replacing any previous content.
    WriteFile { path: String, content: String, err_prefix: String },
    /// Copy a file.
    CopyFile { from: String, to: String, err_prefix: String },
    /// Create a directory and its parents.
    CreateDirAll { path: String },
    /// Remove a directory tree if it exists.
    RemoveDirIfExists { path: String },
    /// Move a file.
    MoveFile { from: String, to: String, err_prefix: String },
    /// Replace the scheduler's job table with this content.
    SetCrontab { content: String },
    /// Report progress; mutates nothing.
    Note { message: String },
    /// Report a completed step; mutates nothing.
    Done { message: String },
}

/// The mathematical shape of an action.
#[verifier::ext_equal]
pub enum ActionV {
    Run {
        program: Seq<char>,
        args: Seq<Seq<char>>,
        envs: Seq<(Seq<char>, Seq<char>)>,
        err_spawn: Seq<char>,
        err_exit: Seq<char>,
    },
    WriteFile { path: Seq<char>, content: Seq<char>, err_prefix: Seq<char> },
    CopyFile { from: Seq<char>, to: Seq<char>, err_prefix: Seq<char> },
    CreateDirAll { path: Seq<char> },
    RemoveDirIfExists { path: Seq<char> },
    MoveFile { from: Seq<char>, to: Seq<char>, err_prefix: Seq<char> },
    SetCrontab { content: Seq<char> },
    Note { message: Seq<char> },
    Done { message: Seq<char> },
}

impl View for Action {
    type V = ActionV;

    open spec fn view(&self) -> ActionV {
        match self {
            Action::Run { program, args, envs, err_spawn, err_exit } => ActionV::Run {
                program: program@,
                args: views_of(args@),
                envs: crate::envmap::kv_views(envs@),
                err_spawn: err_spawn@,
                err_exit: err_exit@,
            },
            Action::WriteFile { path, content, err_prefix } => ActionV::WriteFile {
                path: path@,
                content: content@,
                err_prefix: err_prefix@,
            },
            Action::CopyFile { from, to, err_prefix } => ActionV::CopyFile {
                from: from@,
                to: to@,
                err_prefix: err_prefix@,
            },
            Action::CreateDirAll { path } => ActionV::CreateDirAll { path: path@ },
            Action::RemoveDirIfExists { path } => ActionV::RemoveDirIfExists { path: path@ },
            Action::MoveFile { from, to, err_prefix } => ActionV::MoveFile {
                from: from@,
                to: to@,
                err_prefix: err_prefix@,
            },
            Action::SetCrontab { content } => ActionV::SetCrontab { content: content@ },
            Action::Note { message } => ActionV::Note { message: message@ },
            Action::Done { message } => ActionV::Done { message: message@ },
        }
    }
}

/// Whether an action touches the system at all; notes and reports do not.
pub open spec fn is_mutating(a: ActionV) -> bool {
    !(a matches ActionV::Note { .. } || a matches ActionV::Done { .. })
}

/// A plan whose every action leaves the system untouched: what a dry run
/// must produce.
pub open spec fn all_harmless(actions: Seq<ActionV>) -> bool {
    forall|i: int| 0 <= i < actions.len() ==> !is_mutating(#[trigger] actions[i])
}

/// The views of a vector of actions.
pub open spec fn action_views(v: Seq<Action>) -> Seq<ActionV> {
    v.map_values(|a: Action| a@)
}

/// What running a command turns into: the run itself, or in a dry run a
/// note of the intent.
pub open spec fn spec_run_cmd(cmd: Seq<char>, args: Seq<Seq<char>>, dry_run: bool) -> ActionV {
    if dry_run {
        ActionV::Note { message: "[dry-run] Would run: "@ + cmd + " "@ + join_sep(args, " "@) }
    } else {
        ActionV::Run {
            program: cmd,
            args,
            envs: Seq::empty(),
            err_spawn: "Failed to run "@ + cmd,
            err_exit: "Command failed: "@ + cmd,
        }
    }
}

/// The plan step for one external command.
pub fn run_cmd(cmd: &str, args: &Vec<String>, dry_run: bool) -> (a: Action)
    ensures
        a@ == spec_run_cmd(cmd@, views_of(args@), dry_run),
{
    if dry_run {
        let msg = "[dry-run] Would run: ".to_owned().concat(cmd).concat(" ").concat(
            join_strs(args, " ").as_str(),
        );
        proof {
            assert(msg@ =~= "[dry-run] Would run: "@ + cmd@ + " "@ + join_sep(
                views_of(args@),
                " "@,
            ));
        }
        Action::Note { message: msg }
    } else {
        let a = Action::Run {
            program: cmd.to_owned(),
            args: clone_strings(args),
            envs: Vec::new(),
            err_spawn: "Failed to run ".to_owned().concat(cmd),
            err_exit: "Command failed: ".to_owned().concat(cmd),
        };
        proof {
            assert(crate::envmap::kv_views(Seq::<(String, String)>::empty())
                =~= Seq::<(Seq<char>, Seq<char>)>::empty());
            assert(a@ =~= spec_run_cmd(cmd@, views_of(args@), dry_run));
        }
        a
    }
}

/// A copy of a vector of strings.
pub fn clone_strings(v: &Vec<String>) -> (r: Vec<String>)
    ensures
        views_of(r@) == views_of(v@),
{
    let mut r: Vec<String> = Vec::new();
    let mut i: usize = 0;
    while i < v.len()
        invariant
            i <= v@.len(),
            views_of(r@) =~= views_of(v@).subrange(0, i as int),
        decreases v@.len() - i,
    {
        let ghost old_r = r@;
        r.push(v[i].clone());
        proof {
            assert(views_of(r@) =~= views_of(old_r).push(v@[i as int]@));
            assert(views_of(r@) =~= views_of(v@).subrange(0, i + 1));
        }
        i += 1;
    }
    proof {
        assert(views_of(v@).subrange(0, v@.len() as int) =~= views_of(v@));
    }
    r
}

/// A vector of owned strings from string literals.
pub fn strs_to_strings(v: &[&str]) -> (r: Vec<String>)
    ensures
        views_of(r@) == crate::resolve::strs_views(v@),
{
    let mut r: Vec<String> = Vec::new();
    let mut i: usize = 0;
    while i < v.len()
        invariant
            i <= v@.len(),
            views_of(r@) =~= crate::resolve::strs_views(v@).subrange(0, i as int),
        decreases v@.len() - i,
    {
        let ghost old_r = r@;
        r.push(v[i].to_owned());
        proof {
            assert(views_of(r@) =~= views_of(old_r).push(v@[i as int]@));
            assert(views_of(r@) =~= crate::resolve::strs_views(v@).subrange(0, i + 1));
        }
        i += 1;
    }
    proof {
        assert(crate::resolve::strs_views(v@).subrange(0, v@.len() as int)
            =~= crate::resolve::strs_views(v@));
    }
    r
}

} // verus!
