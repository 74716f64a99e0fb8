//! The exercise locator: which files of a course are its exercises.
//!
//! The caller looks at the file system and hands over what it saw: whether the
//! directories exist, and the entries that a walk of the course yields. The
//! functions here decide where to look and which entries count.

use vstd::prelude::*;
use vstd::multiset::Multiset;
use crate::text::{ends_with, same_text, starts_with, text_ends_with, text_starts_with, to_chars};

verus! {

/// The course that has two fixed source files for exercises.
pub const FIXED_SOURCES_COURSE: &'static str = "learning-lm-rs";

/// The directory, inside that course, that holds the two fixed source files.
pub const FIXED_SOURCES_DIR: &'static str = "src";

/// The first fixed source file.
pub const MODEL_SOURCE: &'static str = "model.rs";

/// The second fixed source file.
pub const OPERATORS_SOURCE: &'static str = "operators.rs";

/// The course that keeps its exercises in a directory of their own.
pub const NESTED_COURSE: &'static str = "rustlings";

/// The directory, inside that course, that holds its exercises.
pub const NESTED_DIR: &'static str = "exercises";

/// The directory that holds build output; nothing below it is an exercise.
pub const BUILD_DIR: &'static str = "target";

/// The end of the name of a source file: a dot and the extension.
pub const SOURCE_SUFFIX: &'static str = ".rs";

/// A file whose name begins with this text holds tests, not an exercise.
pub const TEST_PREFIX: &'static str = "test_";

/// A file whose name begins with this text holds helpers, not an exercise.
pub const HELPER_PREFIX: &'static str = "helper_";

/// Where the exercises of a course are looked for.
#[derive(Clone, Copy, Debug, PartialEq, Eq, Structural)]
pub enum LocatorPlan {
    /// Nowhere: the course has no exercises.
    Nothing,
    /// The two fixed source files, as far as they exist.
    FixedSources,
    /// Everything below the course's directory of exercises.
    WalkNested,
    /// Everything below the course directory but build output.
    WalkCourse,
}

/// What the caller saw of a course directory.
#[derive(Clone, Copy, Debug)]
pub struct CourseLayout {
    /// Whether the course directory exists.
    pub course_exists: bool,
    /// Whether it holds the directory of nested exercises.
    pub nested_dir_exists: bool,
}

/// One entry that a walk of a directory tree yields.
#[derive(Debug)]
pub struct WalkEntry {
    /// The entry's path, as text.
    pub path: String,
    /// The entry's file name; none where the path has none, as the root of a
    /// file system and a path that ends in its parent have none.
    pub name: Option<String>,
    /// The components of the path, outermost first.
    pub components: Vec<String>,
    /// Whether the entry is a file.
    pub is_file: bool,
}

/// What a `WalkEntry` stands for.
pub struct EntryView {
    pub path: Seq<char>,
    pub name: Option<Seq<char>>,
    pub components: Seq<Seq<char>>,
    pub is_file: bool,
}

impl View for WalkEntry {
    type V = EntryView;

    open spec fn view(&self) -> EntryView {
        EntryView {
            path: self.path@,
            name: match self.name {
                Some(name) => Some(name@),
                None => None,
            },
            components: self.components@.map_values(|c: String| c@),
            is_file: self.is_file,
        }
    }
}

/// What a sequence of entries stands for, in the same order.
pub open spec fn entry_views(entries: Seq<WalkEntry>) -> Seq<EntryView> {
    entries.map_values(|e: WalkEntry| e@)
}

/// Where the exercises of the course in the directory named `course` are looked
/// for, given what exists.
///
/// A course directory that does not exist holds nothing. The course of the
/// fixed sources has its two fixed source files for exercises, as far as they
/// exist, and nothing else. The nested course is walked below its directory of
/// exercises, and holds nothing without it. Every other course is walked as a
/// whole.
pub open spec fn plan_of(course: Seq<char>, layout: CourseLayout) -> LocatorPlan {
    if !layout.course_exists {
        LocatorPlan::Nothing
    } else if course == FIXED_SOURCES_COURSE@ {
        LocatorPlan::FixedSources
    } else if course == NESTED_COURSE@ {
        if layout.nested_dir_exists {
            LocatorPlan::WalkNested
        } else {
            LocatorPlan::Nothing
        }
    } else {
        LocatorPlan::WalkCourse
    }
}

/// The fixed source files that count as exercises, given which of them exist.
pub open spec fn fixed_sources(model_exists: bool, operators_exists: bool) -> Seq<Seq<char>> {
    (if model_exists {
        seq![MODEL_SOURCE@]
    } else {
        Seq::empty()
    }) + (if operators_exists {
        seq![OPERATORS_SOURCE@]
    } else {
        Seq::empty()
    })
}

/// Whether a file of this name is a source file: the name ends with the source
/// suffix and has something before it.
pub open spec fn is_source_name(name: Seq<char>) -> bool {
    name.len() > SOURCE_SUFFIX@.len() && ends_with(name, SOURCE_SUFFIX@)
}

/// Whether a file of this name is set aside for tests or helpers.
pub open spec fn is_reserved_name(name: Seq<char>) -> bool {
    starts_with(name, TEST_PREFIX@) || starts_with(name, HELPER_PREFIX@)
}

/// Whether a path with these components lies in or below build output.
pub open spec fn in_build_output(components: Seq<Seq<char>>) -> bool {
    components.contains(BUILD_DIR@)
}

/// Whether `entry` is an exercise: a source file whose name is not reserved
/// and, where `skip_build_output` is set, which does not lie in build output.
pub open spec fn is_exercise(entry: EntryView, skip_build_output: bool) -> bool {
    &&& !(skip_build_output && in_build_output(entry.components))
    &&& entry.is_file
    &&& entry.name matches Some(name)
    &&& is_source_name(name)
    &&& !is_reserved_name(name)
}

/// The function that tells the exercises among the entries of a walk.
pub open spec fn exercise_filter(skip_build_output: bool) -> spec_fn(EntryView) -> bool {
    |entry: EntryView| is_exercise(entry, skip_build_output)
}

/// The exercises among `entries`, in the order of the walk.
pub open spec fn exercises_among(entries: Seq<EntryView>, skip_build_output: bool) -> Seq<
    EntryView,
> {
    entries.filter(exercise_filter(skip_build_output))
}

/// The name of the exercise at `entry`: the file name of its path.
pub open spec fn exercise_name(entry: EntryView) -> Option<Seq<char>> {
    entry.name
}

impl LocatorPlan {
    /// Whether this plan walks a directory tree.
    pub open spec fn walks(self) -> bool {
        self == LocatorPlan::WalkNested || self == LocatorPlan::WalkCourse
    }

    /// Whether a walk by this plan passes over build output.
    pub open spec fn skips_build_output(self) -> bool {
        self == LocatorPlan::WalkCourse
    }

    /// Decides where the exercises of the course in the directory named
    /// `course` are looked for.
    pub fn for_course(course: &str, layout: CourseLayout) -> (plan: LocatorPlan)
        ensures
            plan == plan_of(course@, layout),
            !layout.course_exists ==> plan == LocatorPlan::Nothing,
            layout.course_exists && course@ == FIXED_SOURCES_COURSE@ ==> plan
                == LocatorPlan::FixedSources,
    {
        if !layout.course_exists {
            LocatorPlan::Nothing
        } else if same_text(course, FIXED_SOURCES_COURSE) {
            LocatorPlan::FixedSources
        } else if same_text(course, NESTED_COURSE) {
            if layout.nested_dir_exists {
                LocatorPlan::WalkNested
            } else {
                LocatorPlan::Nothing
            }
        } else {
            LocatorPlan::WalkCourse
        }
    }

    /// Picks the exercises among the entries that a walk by this plan yielded,
    /// keeping the order of the walk. A plan that walks nothing has no
    /// exercises among any entries.
    pub fn select(self, entries: Vec<WalkEntry>) -> (exercises: Vec<WalkEntry>)
        ensures
            self.walks() ==> entry_views(exercises@) == exercises_among(
                entry_views(entries@),
                self.skips_build_output(),
            ),
            !self.walks() ==> exercises@.len() == 0,
    {
        match self {
            LocatorPlan::WalkNested => select_exercises(entries, false),
            LocatorPlan::WalkCourse => select_exercises(entries, true),
            _ => Vec::new(),
        }
    }
}

/// The fixed source files that count as exercises, given which of them exist:
/// their names, to be looked up in the directory of the fixed sources.
pub fn locate_fixed_sources(model_exists: bool, operators_exists: bool) -> (names: Vec<
    &'static str,
>)
    ensures
        names@.map_values(|n: &'static str| n@) == fixed_sources(model_exists, operators_exists),
{
    let mut names: Vec<&'static str> = Vec::new();
    if model_exists {
        names.push(MODEL_SOURCE);
    }
    if operators_exists {
        names.push(OPERATORS_SOURCE);
    }
    assert(names@.map_values(|n: &'static str| n@) =~= fixed_sources(
        model_exists,
        operators_exists,
    ));
    names
}

/// Tests whether a file of this name is a source file.
pub fn has_source_name(name: &str) -> (b: bool)
    ensures
        b == is_source_name(name@),
{
    let suffix = to_chars(SOURCE_SUFFIX);
    let chars = to_chars(name);
    chars.len() > suffix.len() && text_ends_with(name, SOURCE_SUFFIX)
}

/// Tests whether a file of this name is set aside for tests or helpers.
pub fn has_reserved_name(name: &str) -> (b: bool)
    ensures
        b == is_reserved_name(name@),
{
    text_starts_with(name, TEST_PREFIX) || text_starts_with(name, HELPER_PREFIX)
}

/// Tests whether a path with these components lies in or below build output.
pub fn lies_in_build_output(components: &Vec<String>) -> (b: bool)
    ensures
        b == in_build_output(components@.map_values(|c: String| c@)),
{
    let ghost views = components@.map_values(|c: String| c@);
    let mut i: usize = 0;
    while i < components.len()
        invariant
            i <= components@.len(),
            views == components@.map_values(|c: String| c@),
            forall|k: int| 0 <= k < i ==> views[k] != BUILD_DIR@,
        decreases components@.len() - i,
    {
        if same_text(components[i].as_str(), BUILD_DIR) {
            assert(views[i as int] == BUILD_DIR@);
            return true;
        }
        i = i + 1;
    }
    false
}

/// Tests whether `entry` is an exercise.
pub fn is_exercise_entry(entry: &WalkEntry, skip_build_output: bool) -> (b: bool)
    ensures
        b == is_exercise(entry@, skip_build_output),
{
    if skip_build_output && lies_in_build_output(&entry.components) {
        return false;
    }
    if !entry.is_file {
        return false;
    }
    match &entry.name {
        Some(name) => has_source_name(name.as_str()) && !has_reserved_name(name.as_str()),
        None => false,
    }
}

/// Picks the exercises among `entries`, keeping their order.
pub fn select_exercises(entries: Vec<WalkEntry>, skip_build_output: bool) -> (exercises: Vec<
    WalkEntry,
>)
    ensures
        entry_views(exercises@) == exercises_among(entry_views(entries@), skip_build_output),
{
    let ghost all = entry_views(entries@);
    let ghost keep = exercise_filter(skip_build_output);
    let mut exercises: Vec<WalkEntry> = Vec::new();
    proof {
        reveal(Seq::filter);
        assert(entry_views(exercises@) =~= all.take(0).filter(keep));
    }
    for entry in it: entries
        invariant
            it.seq() == entries@,
            all == entry_views(entries@),
            keep == exercise_filter(skip_build_output),
            entry_views(exercises@) == all.take(it.index()).filter(keep),
    {
        let ghost before = entry_views(exercises@);
        proof {
            reveal(Seq::filter);
            let seen = all.take(it.index());
            assert(all.take(it.index() + 1) =~= seen.push(entry@));
            assert(seen.push(entry@).drop_last() =~= seen);
        }
        if is_exercise_entry(&entry, skip_build_output) {
            exercises.push(entry);
            assert(entry_views(exercises@) =~= before.push(entry@));
        }
    }
    assert(all.take(entries@.len() as int) =~= all);
    exercises
}

/// The name of the exercise at `entry`, if its path has one.
pub fn name_of(entry: &WalkEntry) -> (name: Option<&str>)
    ensures
        match name {
            Some(n) => exercise_name(entry@) == Some(n@),
            None => exercise_name(entry@) is None,
        },
{
    match &entry.name {
        Some(name) => Some(name.as_str()),
        None => None,
    }
}

/// The course of the fixed sources, where its directory exists, is never
/// walked, whatever else it holds: its exercises are its fixed source files that
/// exist, the first before the second, and no other file. Where neither exists
/// it has no exercises.
pub proof fn lemma_fixed_sources_and_nothing_else(
    layout: CourseLayout,
    model_exists: bool,
    operators_exists: bool,
)
    requires
        layout.course_exists,
    ensures
        plan_of(FIXED_SOURCES_COURSE@, layout) == LocatorPlan::FixedSources,
        !plan_of(FIXED_SOURCES_COURSE@, layout).walks(),
        fixed_sources(model_exists, operators_exists).contains(MODEL_SOURCE@) <==> model_exists,
        fixed_sources(model_exists, operators_exists).contains(OPERATORS_SOURCE@)
            <==> operators_exists,
        forall|name: Seq<char>| #[trigger]
            fixed_sources(model_exists, operators_exists).contains(name) ==> name == MODEL_SOURCE@
                || name == OPERATORS_SOURCE@,
        fixed_sources(true, true) == seq![MODEL_SOURCE@, OPERATORS_SOURCE@],
        fixed_sources(false, false) == Seq::<Seq<char>>::empty(),
{
    reveal_strlit("model.rs");
    reveal_strlit("operators.rs");
    let found = fixed_sources(model_exists, operators_exists);
    assert(MODEL_SOURCE@.len() != OPERATORS_SOURCE@.len());
    if model_exists {
        assert(found[0] == MODEL_SOURCE@);
    }
    if operators_exists {
        assert(found[found.len() - 1] == OPERATORS_SOURCE@);
    }
    assert(fixed_sources(true, true) =~= seq![MODEL_SOURCE@, OPERATORS_SOURCE@]);
    assert(fixed_sources(false, false) =~= Seq::<Seq<char>>::empty());
}

/// A walk in which nothing is an exercise yields no exercises, and a walk of
/// nothing yields none.
pub proof fn lemma_no_match_selects_nothing(entries: Seq<EntryView>, skip_build_output: bool)
    requires
        forall|i: int| 0 <= i < entries.len() ==> !is_exercise(#[trigger] entries[i], skip_build_output),
    ensures
        exercises_among(entries, skip_build_output).len() == 0,
    decreases entries.len(),
{
    reveal(Seq::filter);
    if entries.len() > 0 {
        lemma_no_match_selects_nothing(entries.drop_last(), skip_build_output);
    }
}

/// Every selected entry is an exercise of the walk and has a name, and every
/// exercise of the walk is selected.
pub proof fn lemma_selection_is_exact(entries: Seq<EntryView>, skip_build_output: bool)
    ensures
        forall|e: EntryView| #[trigger]
            exercises_among(entries, skip_build_output).contains(e) <==> entries.contains(e)
                && is_exercise(e, skip_build_output),
        exercises_among(entries, skip_build_output).len() <= entries.len(),
        forall|e: EntryView| #[trigger]
            exercises_among(entries, skip_build_output).contains(e) ==> exercise_name(e) is Some,
{
    let keep = exercise_filter(skip_build_output);
    entries.lemma_filter_len(keep);
    assert forall|e: EntryView| #[trigger]
        exercises_among(entries, skip_build_output).contains(e) <==> entries.contains(e)
            && is_exercise(e, skip_build_output) by {
        let chosen = exercises_among(entries, skip_build_output);
        if chosen.contains(e) {
            let k = choose|k: int| 0 <= k < chosen.len() && chosen[k] == e;
            entries.lemma_filter_contains_rev(keep, e);
            entries.lemma_filter_pred(keep, k);
        }
        if entries.contains(e) && is_exercise(e, skip_build_output) {
            let i = choose|i: int| 0 <= i < entries.len() && entries[i] == e;
            entries.lemma_filter_contains(keep, i);
        }
    }
}

/// Filtering a sequence and forgetting the order is filtering its multiset.
proof fn lemma_filter_multiset(entries: Seq<EntryView>, keep: spec_fn(EntryView) -> bool)
    ensures
        entries.filter(keep).to_multiset() == entries.to_multiset().filter(keep),
    decreases entries.len(),
{
    reveal(Seq::filter);
    broadcast use vstd::seq_lib::group_to_multiset_ensures;

    if entries.len() == 0 {
        assert(entries.to_multiset() =~= Multiset::<EntryView>::empty());
        assert(entries.filter(keep).to_multiset() =~= entries.to_multiset().filter(keep));
    } else {
        let front = entries.drop_last();
        let last = entries.last();
        lemma_filter_multiset(front, keep);
        assert(front.push(last) =~= entries);
        assert(entries.to_multiset() =~= front.to_multiset().insert(last));
        assert(entries.filter(keep).to_multiset() =~= entries.to_multiset().filter(keep));
    }
}

/// What is selected depends on the walk alone. The same walk selects the same
/// exercises in the same order; two walks that yield the same entries in
/// different orders select the same exercises, each as often, in different
/// orders.
pub proof fn lemma_selection_follows_the_walk(
    first: Seq<EntryView>,
    second: Seq<EntryView>,
    skip_build_output: bool,
)
    ensures
        first == second ==> exercises_among(first, skip_build_output) == exercises_among(
            second,
            skip_build_output,
        ),
        first.to_multiset() == second.to_multiset() ==> {
            &&& exercises_among(first, skip_build_output).to_multiset() == exercises_among(
                second,
                skip_build_output,
            ).to_multiset()
            &&& exercises_among(first, skip_build_output).len() == exercises_among(
                second,
                skip_build_output,
            ).len()
        },
{
    broadcast use vstd::seq_lib::group_to_multiset_ensures;

    lemma_filter_multiset(first, exercise_filter(skip_build_output));
    lemma_filter_multiset(second, exercise_filter(skip_build_output));
    vstd::seq_lib::to_multiset_len(exercises_among(first, skip_build_output));
    vstd::seq_lib::to_multiset_len(exercises_among(second, skip_build_output));
}

} // verus!
