//! The per-file strategy: the steps by which one exercise file is graded.
//!
//! An exercise is linted where its path asks for it, then compiled as a test
//! binary, then run. A step that fails ends the grading with a failing verdict;
//! the last step's success is the verdict. The caller runs each step and reports
//! how it ended; the functions here decide what comes next.

use vstd::prelude::*;
use crate::text::{contains, text_contains};

verus! {

/// An exercise is linted before it is compiled if its path holds this text.
pub const LINT_MARKER: &'static str = "clippy";

/// One step of grading an exercise file.
#[derive(Clone, Copy, Debug, PartialEq, Eq, Structural)]
pub enum Step {
    /// Lint the file, with warnings counted as failures.
    Lint,
    /// Compile the file as a test binary.
    Compile,
    /// Run the compiled binary.
    Execute,
}

/// Where the grading of one exercise stands.
#[derive(Clone, Copy, Debug, PartialEq, Eq, Structural)]
pub enum Progress {
    /// This step is to be run next.
    Next(Step),
    /// Grading has ended with this verdict.
    Done(bool),
}

/// How each step would end if it were run: `true` for success.
pub type Answers = spec_fn(Step) -> bool;

/// Whether the exercise at `path` is linted before it is compiled.
pub open spec fn needs_lint(path: Seq<char>) -> bool {
    contains(path, LINT_MARKER@)
}

/// The step with which the grading of the exercise at `path` begins.
pub open spec fn first_step(path: Seq<char>) -> Step {
    if needs_lint(path) {
        Step::Lint
    } else {
        Step::Compile
    }
}

/// What follows `step`, given whether it succeeded.
pub open spec fn after(step: Step, succeeded: bool) -> Progress {
    match step {
        Step::Lint => if succeeded {
            Progress::Next(Step::Compile)
        } else {
            Progress::Done(false)
        },
        Step::Compile => if succeeded {
            Progress::Next(Step::Execute)
        } else {
            Progress::Done(false)
        },
        Step::Execute => Progress::Done(succeeded),
    }
}

/// How many steps can still follow `step`.
pub open spec fn remaining(step: Step) -> nat {
    match step {
        Step::Lint => 2,
        Step::Compile => 1,
        Step::Execute => 0,
    }
}

/// The steps that are run when grading starts at `step` and the steps end as
/// `answers` says.
pub open spec fn steps_from(step: Step, answers: Answers) -> Seq<Step>
    decreases remaining(step),
{
    match after(step, answers(step)) {
        Progress::Next(next) => seq![step] + steps_from(next, answers),
        Progress::Done(_) => seq![step],
    }
}

/// The verdict when grading starts at `step` and the steps end as `answers`
/// says.
pub open spec fn verdict_from(step: Step, answers: Answers) -> bool
    decreases remaining(step),
{
    match after(step, answers(step)) {
        Progress::Next(next) => verdict_from(next, answers),
        Progress::Done(verdict) => verdict,
    }
}

/// Whether the output of a step is shown: that of a lint or a compilation only
/// where it failed and the run is verbose, that of an execution where it failed
/// or the run is verbose.
pub open spec fn shows_output(step: Step, succeeded: bool, verbose: bool) -> bool {
    match step {
        Step::Lint => !succeeded && verbose,
        Step::Compile => !succeeded && verbose,
        Step::Execute => !succeeded || verbose,
    }
}

/// Tests whether the exercise at `path` is linted before it is compiled.
pub fn is_lint_exercise(path: &str) -> (lint: bool)
    ensures
        lint == needs_lint(path@),
{
    text_contains(path, LINT_MARKER)
}

/// The step with which the grading of the exercise at `path` begins.
pub fn begin(path: &str) -> (step: Step)
    ensures
        step == first_step(path@),
{
    if is_lint_exercise(path) {
        Step::Lint
    } else {
        Step::Compile
    }
}

/// Decides what follows `step`, given whether it succeeded.
pub fn advance(step: Step, succeeded: bool) -> (progress: Progress)
    ensures
        progress == after(step, succeeded),
{
    match step {
        Step::Lint => if succeeded {
            Progress::Next(Step::Compile)
        } else {
            Progress::Done(false)
        },
        Step::Compile => if succeeded {
            Progress::Next(Step::Execute)
        } else {
            Progress::Done(false)
        },
        Step::Execute => Progress::Done(succeeded),
    }
}

/// Decides whether the output of a step is shown.
pub fn echoes(step: Step, succeeded: bool, verbose: bool) -> (shown: bool)
    ensures
        shown == shows_output(step, succeeded, verbose),
{
    match step {
        Step::Lint => !succeeded && verbose,
        Step::Compile => !succeeded && verbose,
        Step::Execute => !succeeded || verbose,
    }
}

/// An exercise passes exactly if every step that its grading runs succeeds:
/// the lint where one is due, the compilation and the execution.
pub proof fn lemma_verdict(path: Seq<char>, answers: Answers)
    ensures
        verdict_from(first_step(path), answers) == ((needs_lint(path) ==> answers(Step::Lint))
            && answers(Step::Compile) && answers(Step::Execute)),
        verdict_from(first_step(path), answers) == (forall|i: int|
            0 <= i < steps_from(first_step(path), answers).len() ==> answers(
                #[trigger] steps_from(first_step(path), answers)[i],
            )),
{
    reveal_with_fuel(steps_from, 4);
    reveal_with_fuel(verdict_from, 4);
    let steps = steps_from(first_step(path), answers);
    if verdict_from(first_step(path), answers) {
        assert forall|i: int| 0 <= i < steps.len() implies answers(#[trigger] steps[i]) by {}
    } else {
        let last = steps.len() - 1;
        assert(!answers(steps[last]));
    }
}

/// A file that fails to compile fails, and is never run.
pub proof fn lemma_failed_compilation_is_not_run(path: Seq<char>, answers: Answers)
    requires
        !answers(Step::Compile),
    ensures
        !verdict_from(first_step(path), answers),
        !steps_from(first_step(path), answers).contains(Step::Execute),
{
    reveal_with_fuel(steps_from, 4);
    reveal_with_fuel(verdict_from, 4);
}

/// A file that fails its lint fails at once: it is neither compiled nor run.
pub proof fn lemma_failed_lint_ends_grading(path: Seq<char>, answers: Answers)
    requires
        needs_lint(path),
        !answers(Step::Lint),
    ensures
        !verdict_from(first_step(path), answers),
        steps_from(first_step(path), answers) == seq![Step::Lint],
{
    reveal_with_fuel(steps_from, 4);
    reveal_with_fuel(verdict_from, 4);
}

/// The steps run in the one order lint, compilation, execution: a lint only
/// first and only where one is due, and an execution only directly after a
/// compilation that succeeded.
pub proof fn lemma_step_order(path: Seq<char>, answers: Answers)
    ensures
        1 <= steps_from(first_step(path), answers).len() <= 3,
        steps_from(first_step(path), answers)[0] == first_step(path),
        forall|i: int|
            0 < i < steps_from(first_step(path), answers).len() ==> after(
                steps_from(first_step(path), answers)[i - 1],
                true,
            ) == Progress::Next(#[trigger] steps_from(first_step(path), answers)[i]) && answers(
                steps_from(first_step(path), answers)[i - 1],
            ),
{
    reveal_with_fuel(steps_from, 4);
}

} // verus!
