//! What a run grades: the exercises root and the courses below it.

use vstd::prelude::*;
use crate::text::same_text;

verus! {

/// The name of the directory that holds the courses.
pub const EXERCISES_DIR: &'static str = "exercises";

/// The name of the file, in the working directory, that the report is written
/// to.
pub const REPORT_FILE: &'static str = "eval_result.json";

/// What a run was asked to do.
#[derive(Debug)]
pub struct EvalArgs {
    /// The one course to grade; every course where there is none.
    pub course: Option<String>,
    /// The path in which the exercises root is looked for.
    pub path: String,
    /// Whether the output of the tools is shown in full.
    pub verbose: bool,
}

/// One entry of the exercises root.
#[derive(Debug)]
pub struct RootEntry {
    /// The entry's name.
    pub name: String,
    /// Whether the entry is a directory.
    pub is_dir: bool,
}

/// What a `RootEntry` stands for.
pub struct RootEntryView {
    pub name: Seq<char>,
    pub is_dir: bool,
}

impl View for RootEntry {
    type V = RootEntryView;

    open spec fn view(&self) -> RootEntryView {
        RootEntryView { name: self.name@, is_dir: self.is_dir }
    }
}

/// What a run does.
#[derive(Debug)]
pub enum RunPlan {
    /// No exercises root: nothing is graded and no report is written.
    MissingRoot,
    /// The course asked for is not there: nothing is graded and no report is
    /// written.
    MissingCourse,
    /// This one course is graded, and the report is written.
    Course(String),
    /// Every directory of the exercises root is graded as a course, in the
    /// order in which the root lists them, and the report is written.
    EveryDirectory,
}

/// What a `RunPlan` stands for.
pub enum RunPlanView {
    MissingRoot,
    MissingCourse,
    Course(Seq<char>),
    EveryDirectory,
}

impl View for RunPlan {
    type V = RunPlanView;

    open spec fn view(&self) -> RunPlanView {
        match self {
            RunPlan::MissingRoot => RunPlanView::MissingRoot,
            RunPlan::MissingCourse => RunPlanView::MissingCourse,
            RunPlan::Course(course) => RunPlanView::Course(course@),
            RunPlan::EveryDirectory => RunPlanView::EveryDirectory,
        }
    }
}

/// The path of the exercises root, by its components: `components` itself where
/// its last component is the exercises directory, and otherwise `components`
/// with that directory appended.
pub open spec fn exercises_root(components: Seq<Seq<char>>) -> Seq<Seq<char>> {
    if components.len() > 0 && components.last() == EXERCISES_DIR@ {
        components
    } else {
        components.push(EXERCISES_DIR@)
    }
}

/// What a run does, given the course asked for and what exists.
///
/// Without the exercises root nothing is done. Where a course was asked for,
/// that course alone is graded, if the root holds it. Otherwise every directory
/// of the root is graded.
pub open spec fn plan_of(course: Option<Seq<char>>, root_exists: bool, course_exists: bool) -> RunPlanView {
    if !root_exists {
        RunPlanView::MissingRoot
    } else {
        match course {
            Some(name) => if course_exists {
                RunPlanView::Course(name)
            } else {
                RunPlanView::MissingCourse
            },
            None => RunPlanView::EveryDirectory,
        }
    }
}

/// The courses among the entries of the exercises root, by name and in order:
/// its directories.
pub open spec fn courses_among(entries: Seq<RootEntryView>) -> Seq<Seq<char>> {
    entries.filter(|e: RootEntryView| e.is_dir).map_values(|e: RootEntryView| e.name)
}

/// Resolves the exercises root from the components of the path given.
pub fn resolve_exercises_root(components: Vec<String>) -> (root: Vec<String>)
    ensures
        root@.map_values(|c: String| c@) == exercises_root(components@.map_values(|c: String| c@)),
{
    let ghost given = components@.map_values(|c: String| c@);
    let mut root = components;
    let n = root.len();
    if n > 0 && same_text(root[n - 1].as_str(), EXERCISES_DIR) {
        assert(given.last() == root@[n - 1]@);
        return root;
    }
    root.push(EXERCISES_DIR.to_owned());
    assert(root@.map_values(|c: String| c@) =~= given.push(EXERCISES_DIR@));
    root
}

impl RootEntry {
    /// Whether this entry of the exercises root is graded as a course: a
    /// directory is, anything else is not.
    pub fn is_course(&self) -> (graded: bool)
        ensures
            graded == self@.is_dir,
    {
        self.is_dir
    }
}

impl EvalArgs {
    /// The course asked for, as a value.
    pub open spec fn asked(&self) -> Option<Seq<char>> {
        match self.course {
            Some(name) => Some(name@),
            None => None,
        }
    }

    /// Decides what the run does. `root_exists` says whether the exercises
    /// root exists, `course_exists` whether it holds the course asked for; the
    /// latter is of no account where none was asked for.
    pub fn plan(&self, root_exists: bool, course_exists: bool) -> (plan: RunPlan)
        ensures
            plan@ == plan_of(self.asked(), root_exists, course_exists),
    {
        if !root_exists {
            return RunPlan::MissingRoot;
        }
        match &self.course {
            Some(name) => {
                if course_exists {
                    RunPlan::Course(name.clone())
                } else {
                    RunPlan::MissingCourse
                }
            },
            None => RunPlan::EveryDirectory,
        }
    }
}

/// Going through the entries of the root one by one and grading those that
/// `is_course` accepts grades the courses among them, each once and in the
/// order of the listing: nothing is graded of an empty listing, and one more
/// entry adds its name at the end if it is a directory, and nothing if not.
pub proof fn lemma_courses_entry_by_entry(entries: Seq<RootEntryView>, entry: RootEntryView)
    ensures
        courses_among(Seq::empty()) == Seq::<Seq<char>>::empty(),
        courses_among(entries.push(entry)) == if entry.is_dir {
            courses_among(entries).push(entry.name)
        } else {
            courses_among(entries)
        },
        courses_among(entries).len() <= entries.len(),
{
    reveal(Seq::filter);
    let dirs = |e: RootEntryView| e.is_dir;
    assert(courses_among(Seq::empty()) =~= Seq::<Seq<char>>::empty());
    assert(entries.push(entry).drop_last() =~= entries);
    if entry.is_dir {
        assert(entries.filter(dirs).push(entry).map_values(|e: RootEntryView| e.name)
            =~= courses_among(entries).push(entry.name));
    }
    entries.lemma_filter_len(dirs);
}

} // verus!
