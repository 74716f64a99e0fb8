//! Which strategy grades a course, and the unit-test strategy.

use vstd::prelude::*;
use crate::report::{CourseOutcome, ExerciseResult, Record};
use crate::text::same_text;

verus! {

/// The course whose exercises are graded by its own test suite.
pub const UNIT_TEST_COURSE: &'static str = "learning-lm-rs";

/// The course whose exercises are graded by its summary command.
pub const SUMMARY_COURSE: &'static str = "learning-cxx";

/// The first of the two exercises of the unit-test course.
pub const MODEL_EXERCISE: &'static str = "model.rs";

/// The second of the two exercises of the unit-test course.
pub const OPERATORS_EXERCISE: &'static str = "operators.rs";

/// How the exercises of a course are graded.
#[derive(Clone, Copy, Debug, PartialEq, Eq, Structural)]
pub enum StrategyKind {
    /// The course's test suite runs once; its verdict holds for every exercise
    /// of a fixed list.
    UnitTest,
    /// One summary command runs; its output names the exercises and their
    /// verdicts.
    StructuredSummary,
    /// Every exercise file is compiled and run by itself.
    PerFile,
}

/// The strategy that grades the course in the directory named `course`: each of
/// the two special courses has its own, every other course is graded file by
/// file.
pub open spec fn strategy_of(course: Seq<char>) -> StrategyKind {
    if course == UNIT_TEST_COURSE@ {
        StrategyKind::UnitTest
    } else if course == SUMMARY_COURSE@ {
        StrategyKind::StructuredSummary
    } else {
        StrategyKind::PerFile
    }
}

/// The names that the unit-test strategy reports, in order.
pub open spec fn unit_test_names() -> Seq<Seq<char>> {
    seq![MODEL_EXERCISE@, OPERATORS_EXERCISE@]
}

/// What the unit-test strategy reports. Without a manifest there is no suite
/// to run and nothing is reported; otherwise every name of the fixed list gets
/// the suite's verdict.
pub open spec fn unit_test_records(suite: Option<bool>) -> Seq<Record> {
    match suite {
        Some(passed) => unit_test_names().map_values(
            |name: Seq<char>| Record { name, result: passed },
        ),
        None => Seq::empty(),
    }
}

/// Whether the output of the test suite is shown: where it failed, or where
/// the run is verbose.
pub open spec fn shows_suite_output(succeeded: bool, verbose: bool) -> bool {
    verbose || !succeeded
}

impl StrategyKind {
    /// Picks the strategy for the course in the directory named `course`.
    pub fn for_course(course: &str) -> (kind: StrategyKind)
        ensures
            kind == strategy_of(course@),
    {
        if same_text(course, UNIT_TEST_COURSE) {
            StrategyKind::UnitTest
        } else if same_text(course, SUMMARY_COURSE) {
            StrategyKind::StructuredSummary
        } else {
            StrategyKind::PerFile
        }
    }
}

/// The outcome of the unit-test strategy. `suite` is `None` where the course
/// has no manifest, and otherwise says whether the test suite succeeded.
pub fn unit_test_outcome(suite: Option<bool>) -> (outcome: CourseOutcome)
    ensures
        outcome@ == unit_test_records(suite),
{
    let mut outcome = CourseOutcome::new();
    match suite {
        Some(passed) => {
            outcome.push(ExerciseResult { name: MODEL_EXERCISE.to_owned(), result: passed });
            outcome.push(ExerciseResult { name: OPERATORS_EXERCISE.to_owned(), result: passed });
            assert(outcome@ =~= unit_test_records(suite));
        },
        None => {},
    }
    outcome
}

/// Decides whether the output of the test suite is shown.
pub fn suite_output_shown(succeeded: bool, verbose: bool) -> (shown: bool)
    ensures
        shown == shows_suite_output(succeeded, verbose),
{
    verbose || !succeeded
}

/// Every verdict of the unit-test strategy is the suite's: all pass or all
/// fail, and there are as many results as names in the fixed list.
pub proof fn lemma_unit_test_broadcast(passed: bool)
    ensures
        unit_test_records(Some(passed)).len() == unit_test_names().len() == 2,
        forall|i: int|
            0 <= i < 2 ==> (#[trigger] unit_test_records(Some(passed))[i]).result == passed,
        unit_test_records(None).len() == 0,
{
}

} // verus!
