use camp_grader::grading::{advance, begin, Progress, Step};
use camp_grader::locator::{name_of, CourseLayout, LocatorPlan, WalkEntry};
use camp_grader::report::{CourseOutcome, ExerciseResult, GradeResult};
use camp_grader::strategy::{unit_test_outcome, StrategyKind};
use camp_grader::summary::parse_summary;
use std::path::Path;

struct Tools {
    compiles: fn(&str) -> bool,
    runs: fn(&str) -> bool,
}

fn entry(path: &str, is_file: bool) -> WalkEntry {
    WalkEntry {
        path: path.to_string(),
        name: Path::new(path).file_name().map(|n| n.to_string_lossy().into_owned()),
        components: Path::new(path).components().map(|c| c.as_os_str().to_string_lossy().into_owned()).collect(),
        is_file,
    }
}

fn grade_file(exercise: &WalkEntry, tools: &Tools, executed: &mut Vec<String>) -> ExerciseResult {
    let name = name_of(exercise).unwrap().to_string();
    let mut step = begin(&exercise.path);
    loop {
        let succeeded = match step {
            Step::Lint => true,
            Step::Compile => (tools.compiles)(&name),
            Step::Execute => {
                executed.push(name.clone());
                (tools.runs)(&name)
            }
        };
        match advance(step, succeeded) {
            Progress::Next(next) => step = next,
            Progress::Done(verdict) => return ExerciseResult { name, result: verdict },
        }
    }
}

fn grade_course(name: &str, walk: Vec<WalkEntry>, tools: &Tools, executed: &mut Vec<String>) -> CourseOutcome {
    assert_eq!(StrategyKind::for_course(name), StrategyKind::PerFile);
    let layout = CourseLayout { course_exists: true, nested_dir_exists: false };
    let plan = LocatorPlan::for_course(name, layout);
    let mut outcome = CourseOutcome::new();
    for exercise in plan.select(walk).iter() {
        outcome.push(grade_file(exercise, tools, executed));
    }
    outcome
}

fn two_files() -> Vec<WalkEntry> {
    vec![entry("basics", false), entry("basics/good.rs", true), entry("basics/broken.rs", true)]
}

fn tools() -> Tools {
    Tools { compiles: |name| name != "broken.rs", runs: |_| true }
}

#[test]
fn one_good_file_and_one_that_does_not_compile() {
    let mut executed = Vec::new();
    let course = grade_course("basics", two_files(), &tools(), &mut executed);
    let report = GradeResult::aggregate(vec![course], 1);
    assert_eq!(report.statistics().total_exercations(), 2);
    assert_eq!(report.statistics().total_succeeds(), 1);
    assert_eq!(report.statistics().total_failures(), 1);
    assert_eq!(report.exercises()[0].name, "good.rs");
    assert!(report.exercises()[0].result);
    assert_eq!(report.exercises()[1].name, "broken.rs");
    assert!(!report.exercises()[1].result);
    assert_eq!(executed, ["good.rs"]);
    assert_eq!(report.statistics().pass_rate_hundredths(), 5000);
}

#[test]
fn grading_twice_gives_the_same_results() {
    let mut executed = Vec::new();
    let first = grade_course("basics", two_files(), &tools(), &mut executed);
    let second = grade_course("basics", two_files(), &tools(), &mut executed);
    assert_eq!(first.attempted(), second.attempted());
    for (x, y) in first.results().iter().zip(second.results().iter()) {
        assert_eq!(x.name, y.name);
        assert_eq!(x.result, y.result);
    }
}

#[test]
fn a_course_without_exercises_contributes_nothing() {
    let mut executed = Vec::new();
    let course = grade_course("empty", vec![entry("empty", false), entry("empty/notes.md", true)], &tools(), &mut executed);
    assert_eq!(course.attempted(), 0);
    let report = GradeResult::aggregate(vec![course], 0);
    assert_eq!(report.statistics().total_exercations(), 0);
    assert_eq!(report.statistics().pass_rate_hundredths(), 0);
    assert!(executed.is_empty());
}

#[test]
fn a_run_over_all_three_strategies() {
    let mut executed = Vec::new();
    let outcomes = vec![
        unit_test_outcome(Some(false)),
        parse_summary("exercise00 passed\nexercise01 failed\n", "").unwrap(),
        grade_course("basics", two_files(), &tools(), &mut executed),
    ];
    let report = GradeResult::aggregate(outcomes, 9);
    let names: Vec<&str> = report.exercises().iter().map(|r| r.name.as_str()).collect();
    assert_eq!(names, ["model.rs", "operators.rs", "exercise00", "exercise01", "good.rs", "broken.rs"]);
    assert_eq!(report.statistics().total_exercations(), 6);
    assert_eq!(report.statistics().total_succeeds(), 2);
    assert_eq!(report.statistics().total_failures(), 4);
    assert_eq!(report.statistics().total_time(), 9);
    assert_eq!(report.statistics().pass_rate_hundredths(), 3333);
    assert_eq!(report.failed_names(), ["model.rs", "operators.rs", "exercise01", "broken.rs"]);
}
