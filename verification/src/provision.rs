//! Provisioning a course: the steps by which its repository is brought in as a
//! submodule of the workspace.
//!
//! The caller runs each version-control command and reports how it ended; the
//! functions here decide what comes next.

use vstd::prelude::*;
use vstd::string::*;
use crate::command::{CommandLine, CommandView};
use crate::text::{contains, text_contains};

verus! {

/// The directory that holds the courses, with the slash that separates it from
/// the course's name.
pub const COURSES_PREFIX: &'static str = "exercises/";

/// How the submodule file introduces the path of a submodule.
pub const PATH_KEY: &'static str = "path = ";

/// What provisioning was asked to do.
#[derive(Debug)]
pub struct LearnArgs {
    /// The name of the course.
    pub course: String,
    /// The address of the repository to bring in; nothing is brought in where
    /// there is none.
    pub submodule: Option<String>,
}

/// One version-control command of provisioning.
#[derive(Clone, Copy, Debug, PartialEq, Eq, Structural)]
pub enum GitStep {
    /// Add the repository as a new submodule.
    Add,
    /// Initialise the submodule and bring it to the newest remote version.
    Update,
    /// Switch the submodule to the branch `master`, tracking its remote.
    CheckoutMaster,
    /// Switch the submodule to the branch `main`, tracking its remote.
    CheckoutMain,
}

/// Where provisioning stands.
#[derive(Clone, Copy, Debug, PartialEq, Eq, Structural)]
pub enum Provision {
    /// This command is to be run next.
    Next(GitStep),
    /// The course is in place; `detached` where neither branch could be
    /// switched to.
    Ready { detached: bool },
    /// This command failed and provisioning is given up.
    Failed(GitStep),
}

/// The path of the course named `course`, relative to the workspace.
pub open spec fn submodule_path_of(course: Seq<char>) -> Seq<char> {
    COURSES_PREFIX@ + course
}

/// Whether the submodule file `gitmodules` already configures the course named
/// `course`; a workspace without that file configures none.
pub open spec fn configures(gitmodules: Option<Seq<char>>, course: Seq<char>) -> bool {
    match gitmodules {
        Some(content) => contains(content, PATH_KEY@ + submodule_path_of(course)),
        None => false,
    }
}

/// The command with which provisioning begins: a configured submodule is
/// updated, a new one is added.
pub open spec fn first_git_step(configured: bool) -> GitStep {
    if configured {
        GitStep::Update
    } else {
        GitStep::Add
    }
}

/// What follows `step`, given whether it succeeded. A failed addition or update
/// ends provisioning; where `master` cannot be switched to, `main` is tried,
/// and where that fails too the course is left as it was checked out.
pub open spec fn after_git(step: GitStep, succeeded: bool) -> Provision {
    match step {
        GitStep::Add => if succeeded {
            Provision::Next(GitStep::Update)
        } else {
            Provision::Failed(GitStep::Add)
        },
        GitStep::Update => if succeeded {
            Provision::Next(GitStep::CheckoutMaster)
        } else {
            Provision::Failed(GitStep::Update)
        },
        GitStep::CheckoutMaster => if succeeded {
            Provision::Ready { detached: false }
        } else {
            Provision::Next(GitStep::CheckoutMain)
        },
        GitStep::CheckoutMain => Provision::Ready { detached: !succeeded },
    }
}

/// The command line of `step`, for the repository at `url` and the submodule
/// at `path`. Addition and update run in the workspace, the two switches in
/// the course directory.
pub open spec fn git_command_of(step: GitStep, url: Seq<char>, path: Seq<char>) -> CommandView {
    CommandView {
        program: "git"@,
        args: match step {
            GitStep::Add => seq!["submodule"@, "add"@, url, path],
            GitStep::Update => seq!["submodule"@, "update"@, "--init"@, "--remote"@, path],
            GitStep::CheckoutMaster => seq!["checkout"@, "-B"@, "master"@, "origin/master"@],
            GitStep::CheckoutMain => seq!["checkout"@, "-B"@, "main"@, "origin/main"@],
        },
    }
}

impl GitStep {
    /// Whether this command runs in the course directory, not in the
    /// workspace.
    pub open spec fn in_course_dir(self) -> bool {
        self == GitStep::CheckoutMaster || self == GitStep::CheckoutMain
    }

    /// Tests whether this command runs in the course directory.
    pub fn runs_in_course_dir(self) -> (b: bool)
        ensures
            b == self.in_course_dir(),
    {
        match self {
            GitStep::CheckoutMaster => true,
            GitStep::CheckoutMain => true,
            _ => false,
        }
    }
}

impl LearnArgs {
    /// The path of the course, relative to the workspace.
    pub fn submodule_path(&self) -> (path: String)
        ensures
            path@ == submodule_path_of(self.course@),
    {
        COURSES_PREFIX.to_owned().concat(self.course.as_str())
    }

    /// Tests whether the submodule file already configures the course.
    /// `gitmodules` is the content of that file, if the workspace has one.
    pub fn is_configured(&self, gitmodules: Option<&str>) -> (configured: bool)
        ensures
            configured == configures(
                match gitmodules {
                    Some(content) => Some(content@),
                    None => None,
                },
                self.course@,
            ),
    {
        match gitmodules {
            Some(content) => {
                let entry = PATH_KEY.to_owned().concat(self.submodule_path().as_str());
                text_contains(content, entry.as_str())
            },
            None => false,
        }
    }
}

/// The command with which provisioning begins.
pub fn begin_provision(configured: bool) -> (step: GitStep)
    ensures
        step == first_git_step(configured),
{
    if configured {
        GitStep::Update
    } else {
        GitStep::Add
    }
}

/// Decides what follows `step`, given whether it succeeded.
pub fn advance_provision(step: GitStep, succeeded: bool) -> (next: Provision)
    ensures
        next == after_git(step, succeeded),
{
    match step {
        GitStep::Add => if succeeded {
            Provision::Next(GitStep::Update)
        } else {
            Provision::Failed(GitStep::Add)
        },
        GitStep::Update => if succeeded {
            Provision::Next(GitStep::CheckoutMaster)
        } else {
            Provision::Failed(GitStep::Update)
        },
        GitStep::CheckoutMaster => if succeeded {
            Provision::Ready { detached: false }
        } else {
            Provision::Next(GitStep::CheckoutMain)
        },
        GitStep::CheckoutMain => Provision::Ready { detached: !succeeded },
    }
}

/// The command line of `step`, for the repository at `url` and the submodule
/// at `path`.
pub fn git_command(step: GitStep, url: &str, path: &str) -> (command: CommandLine)
    ensures
        command@ == git_command_of(step, url@, path@),
{
    let mut args: Vec<String> = Vec::new();
    match step {
        GitStep::Add => {
            args.push("submodule".to_owned());
            args.push("add".to_owned());
            args.push(url.to_owned());
            args.push(path.to_owned());
        },
        GitStep::Update => {
            args.push("submodule".to_owned());
            args.push("update".to_owned());
            args.push("--init".to_owned());
            args.push("--remote".to_owned());
            args.push(path.to_owned());
        },
        GitStep::CheckoutMaster => {
            args.push("checkout".to_owned());
            args.push("-B".to_owned());
            args.push("master".to_owned());
            args.push("origin/master".to_owned());
        },
        GitStep::CheckoutMain => {
            args.push("checkout".to_owned());
            args.push("-B".to_owned());
            args.push("main".to_owned());
            args.push("origin/main".to_owned());
        },
    }
    let command = CommandLine { program: "git".to_owned(), args };
    assert(command@.args =~= git_command_of(step, url@, path@).args);
    command
}

/// How many commands can still follow `step`.
pub open spec fn git_steps_left(step: GitStep) -> nat {
    match step {
        GitStep::Add => 3,
        GitStep::Update => 2,
        GitStep::CheckoutMaster => 1,
        GitStep::CheckoutMain => 0,
    }
}

/// How provisioning ends when it starts at `step` and the commands end as
/// `answers` says.
pub open spec fn provision_from(step: GitStep, answers: spec_fn(GitStep) -> bool) -> Provision
    decreases git_steps_left(step),
{
    match after_git(step, answers(step)) {
        Provision::Next(next) => provision_from(next, answers),
        end => end,
    }
}

/// Provisioning always ends, after four commands at most. It fails exactly
/// where the addition of a new submodule or the update fails; otherwise the
/// course is in place, detached exactly where neither branch could be switched
/// to.
pub proof fn lemma_provision_ends(configured: bool, answers: spec_fn(GitStep) -> bool)
    ensures
        !(provision_from(first_git_step(configured), answers) is Next),
        provision_from(first_git_step(configured), answers) is Failed <==> (!configured
            && !answers(GitStep::Add)) || !answers(GitStep::Update),
        provision_from(first_git_step(configured), answers) matches Provision::Ready { detached }
            ==> detached == (!answers(GitStep::CheckoutMaster) && !answers(
            GitStep::CheckoutMain,
        )),
{
    reveal_with_fuel(provision_from, 5);
}

} // verus!
