//! Exercise results, the counts kept beside them, and the report of a run.

use vstd::prelude::*;

verus! {

/// The verdict on one exercise.
#[derive(Debug)]
pub struct ExerciseResult {
    /// The exercise's name, as the grading strategy reported it.
    pub name: String,
    /// Whether the exercise passed.
    pub result: bool,
}

/// What an `ExerciseResult` stands for: a name and a verdict.
pub struct Record {
    pub name: Seq<char>,
    pub result: bool,
}

impl View for ExerciseResult {
    type V = Record;

    open spec fn view(&self) -> Record {
        Record { name: self.name@, result: self.result }
    }
}

/// The records that a sequence of results stands for, in the same order.
pub open spec fn records(results: Seq<ExerciseResult>) -> Seq<Record> {
    results.map_values(|r: ExerciseResult| r@)
}

/// The records among `records` that passed, in order.
pub open spec fn passed(records: Seq<Record>) -> Seq<Record> {
    records.filter(|r: Record| r.result)
}

/// The records among `records` that failed, in order.
pub open spec fn failed(records: Seq<Record>) -> Seq<Record> {
    records.filter(|r: Record| !r.result)
}

/// How many of `records` passed.
pub open spec fn passed_count(records: Seq<Record>) -> nat {
    passed(records).len()
}

/// How many of `records` failed.
pub open spec fn failed_count(records: Seq<Record>) -> nat {
    failed(records).len()
}

/// The names of the records that failed, in order; a name occurs as often as it
/// failed.
pub open spec fn failed_names(records: Seq<Record>) -> Seq<Seq<char>> {
    failed(records).map_values(|r: Record| r.name)
}

/// The pass rate in hundredths of a percent: `10000 * succeeded / attempted`
/// rounded to the nearest whole number, halves upwards; zero where nothing was
/// attempted.
pub open spec fn pass_rate(succeeded: nat, attempted: nat) -> nat {
    if attempted == 0 {
        0
    } else {
        (20000 * succeeded + attempted) / (2 * attempted)
    }
}

/// Appending one record adds one to the count on its side and leaves the other
/// count alone.
pub proof fn lemma_counts_push(rs: Seq<Record>, r: Record)
    ensures
        passed(rs.push(r)) == if r.result {
            passed(rs).push(r)
        } else {
            passed(rs)
        },
        failed(rs.push(r)) == if r.result {
            failed(rs)
        } else {
            failed(rs).push(r)
        },
{
    reveal(Seq::filter);
    assert(rs.push(r).drop_last() =~= rs);
}

/// The counts of a concatenation are the sums of the counts of its parts.
pub proof fn lemma_counts_add(a: Seq<Record>, b: Seq<Record>)
    ensures
        passed(a + b) == passed(a) + passed(b),
        failed(a + b) == failed(a) + failed(b),
        passed_count(a + b) == passed_count(a) + passed_count(b),
        failed_count(a + b) == failed_count(a) + failed_count(b),
{
    Seq::filter_distributes_over_add(a, b, |r: Record| r.result);
    Seq::filter_distributes_over_add(a, b, |r: Record| !r.result);
}

/// Every record is counted exactly once: those that passed and those that
/// failed together are all of them.
pub proof fn lemma_counts_partition(rs: Seq<Record>)
    ensures
        passed_count(rs) + failed_count(rs) == rs.len(),
    decreases rs.len(),
{
    reveal(Seq::filter);
    if rs.len() > 0 {
        lemma_counts_partition(rs.drop_last());
        assert(rs.drop_last().push(rs.last()) =~= rs);
        lemma_counts_push(rs.drop_last(), rs.last());
    }
}

/// The pass rate is zero where nothing was attempted, and otherwise the whole
/// number of hundredths of a percent nearest to the exact quotient, a half
/// counting upwards. It is zero where nothing passed, a hundred percent where
/// everything did, and never more where no more passed than were attempted.
pub proof fn lemma_pass_rate(succeeded: nat, attempted: nat)
    ensures
        attempted == 0 ==> pass_rate(succeeded, attempted) == 0,
        attempted > 0 ==> 2 * attempted * pass_rate(succeeded, attempted) - attempted <= 20000
            * succeeded < 2 * attempted * pass_rate(succeeded, attempted) + attempted,
        succeeded == 0 ==> pass_rate(succeeded, attempted) == 0,
        succeeded == attempted && attempted > 0 ==> pass_rate(succeeded, attempted) == 10000,
        succeeded <= attempted ==> pass_rate(succeeded, attempted) <= 10000,
{
    if attempted > 0 {
        let n = (20000 * succeeded + attempted) as int;
        let d = (2 * attempted) as int;
        let q = n / d;
        assert(n == d * q + n % d && 0 <= n % d < d) by (nonlinear_arith)
            requires
                d > 0,
                q == n / d,
        ;
        assert(d * q == 2 * attempted * q) by (nonlinear_arith)
            requires
                d == 2 * attempted,
        ;
        if succeeded <= attempted {
            assert(q <= 10000) by (nonlinear_arith)
                requires
                    d * q <= n,
                    n <= 10000 * d + d / 2,
                    d > 0,
            ;
        }
        if succeeded == attempted {
            assert(q >= 10000) by (nonlinear_arith)
                requires
                    n < d * q + d,
                    n == 10000 * d + d / 2,
                    d > 0,
            ;
        }
        if succeeded == 0 {
            assert(q <= 0) by (nonlinear_arith)
                requires
                    d * q <= n,
                    n < d,
                    d > 0,
            ;
        }
    }
}

/// The results of grading one course, in the order in which they were found,
/// with running counts of the verdicts.
///
/// The counts always agree with the results held: the fields are private and
/// every function that makes or changes an outcome keeps them so.
#[derive(Debug)]
pub struct CourseOutcome {
    results: Vec<ExerciseResult>,
    succeeded: usize,
    failed: usize,
}

impl View for CourseOutcome {
    type V = Seq<Record>;

    closed spec fn view(&self) -> Seq<Record> {
        records(self.results@)
    }
}

impl CourseOutcome {
    #[verifier::type_invariant]
    spec fn counts_agree(&self) -> bool {
        &&& self.succeeded == passed_count(records(self.results@))
        &&& self.failed == failed_count(records(self.results@))
    }

    /// An outcome without results.
    pub fn new() -> (outcome: CourseOutcome)
        ensures
            outcome@ == Seq::<Record>::empty(),
    {
        proof {
            reveal(Seq::filter);
            assert(records(Seq::<ExerciseResult>::empty()) =~= Seq::<Record>::empty());
        }
        CourseOutcome { results: Vec::new(), succeeded: 0, failed: 0 }
    }

    /// Takes the results and the counts out, leaving an outcome without
    /// results behind. The counts cannot disagree with the results while the
    /// outcome is whole, so a change is made on the parts and the outcome
    /// put together again.
    fn take(&mut self) -> (parts: (Vec<ExerciseResult>, usize, usize))
        ensures
            final(self)@ == Seq::<Record>::empty(),
            records(parts.0@) == old(self)@,
            parts.1 == passed_count(old(self)@),
            parts.2 == failed_count(old(self)@),
    {
        let mut taken = CourseOutcome::new();
        core::mem::swap(self, &mut taken);
        proof {
            use_type_invariant(&taken);
        }
        let CourseOutcome { results, succeeded, failed } = taken;
        (results, succeeded, failed)
    }

    /// Appends one result and counts it.
    pub fn push(&mut self, result: ExerciseResult)
        ensures
            final(self)@ == old(self)@.push(result@),
    {
        let (mut results, succeeded, failed) = self.take();
        let passed = result.result;
        proof {
            lemma_counts_push(old(self)@, result@);
            lemma_counts_partition(old(self)@.push(result@));
            assert(records(results@.push(result)) =~= old(self)@.push(result@));
        }
        results.push(result);
        // Both counts together are the number of results, which fits a `usize`.
        let total: usize = results.len();
        assert(passed_count(old(self)@.push(result@)) + failed_count(old(self)@.push(result@))
            == total);
        *self = if passed {
            CourseOutcome { results, succeeded: succeeded + 1, failed }
        } else {
            CourseOutcome { results, succeeded, failed: failed + 1 }
        };
    }

    /// Appends the results of `other`, in their order, and adds its counts.
    pub fn absorb(&mut self, other: CourseOutcome)
        ensures
            final(self)@ == old(self)@ + other@,
    {
        let ghost added = other@;
        let (mut results, succeeded, failed) = self.take();
        proof {
            use_type_invariant(&other);
        }
        let CourseOutcome { results: mut more, succeeded: more_succeeded, failed: more_failed } =
            other;
        proof {
            lemma_counts_add(old(self)@, added);
            lemma_counts_partition(old(self)@ + added);
            assert(records(results@ + more@) =~= old(self)@ + added);
        }
        results.append(&mut more);
        // Both sums together are the number of results, which fits a `usize`.
        let total: usize = results.len();
        assert(passed_count(old(self)@ + added) + failed_count(old(self)@ + added) == total);
        *self = CourseOutcome {
            results,
            succeeded: succeeded + more_succeeded,
            failed: failed + more_failed,
        };
    }

    /// Counts the verdicts of `results`.
    pub fn from_results(results: Vec<ExerciseResult>) -> (outcome: CourseOutcome)
        ensures
            outcome@ == records(results@),
    {
        let mut succeeded: usize = 0;
        let mut failed: usize = 0;
        let mut i: usize = 0;
        let ghost all = records(results@);
        proof {
            reveal(Seq::filter);
        }
        while i < results.len()
            invariant
                i <= results@.len(),
                all == records(results@),
                succeeded == passed_count(all.take(i as int)),
                failed == failed_count(all.take(i as int)),
            decreases results@.len() - i,
        {
            proof {
                let seen = all.take(i as int);
                assert(all.take(i + 1) =~= seen.push(all[i as int]));
                lemma_counts_push(seen, all[i as int]);
                lemma_counts_partition(all.take(i + 1));
            }
            if results[i].result {
                succeeded = succeeded + 1;
            } else {
                failed = failed + 1;
            }
            i = i + 1;
        }
        assert(all.take(i as int) =~= all);
        CourseOutcome { results, succeeded, failed }
    }

    /// The number of results.
    pub fn attempted(&self) -> (n: usize)
        ensures
            n == self@.len(),
            n == passed_count(self@) + failed_count(self@),
    {
        proof {
            lemma_counts_partition(self@);
        }
        self.results.len()
    }

    /// The number of results that passed.
    pub fn succeeded(&self) -> (n: usize)
        ensures
            n == passed_count(self@),
    {
        proof {
            use_type_invariant(self);
        }
        self.succeeded
    }

    /// The number of results that failed.
    pub fn failed(&self) -> (n: usize)
        ensures
            n == failed_count(self@),
    {
        proof {
            use_type_invariant(self);
        }
        self.failed
    }

    /// The results, in order.
    pub fn results(&self) -> (results: &Vec<ExerciseResult>)
        ensures
            records(results@) == self@,
    {
        &self.results
    }

    /// Gives up the results, in order.
    pub fn into_results(self) -> (results: Vec<ExerciseResult>)
        ensures
            records(results@) == self@,
    {
        self.results
    }
}

/// The totals of a run.
///
/// Every attempted exercise either passed or failed: the fields are private
/// and no function makes totals of which that does not hold.
#[derive(Debug)]
pub struct Statistics {
    total_exercations: usize,
    total_succeeds: usize,
    total_failures: usize,
    total_time: u64,
}

impl Statistics {
    #[verifier::type_invariant]
    spec fn balanced(&self) -> bool {
        self.total_exercations == self.total_succeeds + self.total_failures
    }

    /// The number of exercises attempted.
    pub closed spec fn attempted(&self) -> nat {
        self.total_exercations as nat
    }

    /// The number of exercises that passed.
    pub closed spec fn succeeded(&self) -> nat {
        self.total_succeeds as nat
    }

    /// The number of exercises that failed.
    pub closed spec fn failed(&self) -> nat {
        self.total_failures as nat
    }

    /// The whole seconds that the run took.
    pub closed spec fn elapsed(&self) -> nat {
        self.total_time as nat
    }

    /// The totals are those of `records`.
    pub open spec fn summarizes(&self, records: Seq<Record>) -> bool {
        &&& self.attempted() == records.len()
        &&& self.succeeded() == passed_count(records)
        &&& self.failed() == failed_count(records)
    }

    /// The totals of one outcome and the time it took.
    pub fn of(outcome: &CourseOutcome, total_time: u64) -> (stats: Statistics)
        ensures
            stats.summarizes(outcome@),
            stats.elapsed() == total_time,
    {
        Statistics {
            total_exercations: outcome.attempted(),
            total_succeeds: outcome.succeeded(),
            total_failures: outcome.failed(),
            total_time,
        }
    }

    /// Totals from the two counts, where their sum can be held.
    pub fn from_counts(succeeds: usize, failures: usize, total_time: u64) -> (stats: Option<
        Statistics,
    >)
        ensures
            stats is Some <==> succeeds + failures <= usize::MAX,
            stats matches Some(s) ==> s.attempted() == succeeds + failures && s.succeeded()
                == succeeds && s.failed() == failures && s.elapsed() == total_time,
    {
        match succeeds.checked_add(failures) {
            Some(total) => Some(
                Statistics {
                    total_exercations: total,
                    total_succeeds: succeeds,
                    total_failures: failures,
                    total_time,
                },
            ),
            None => None,
        }
    }

    /// The number of exercises attempted: as many as passed and failed
    /// together.
    pub fn total_exercations(&self) -> (n: usize)
        ensures
            n == self.attempted(),
            n == self.succeeded() + self.failed(),
    {
        proof {
            use_type_invariant(self);
        }
        self.total_exercations
    }

    /// The number of exercises that passed.
    pub fn total_succeeds(&self) -> (n: usize)
        ensures
            n == self.succeeded(),
            n <= self.attempted(),
    {
        proof {
            use_type_invariant(self);
        }
        self.total_succeeds
    }

    /// The number of exercises that failed.
    pub fn total_failures(&self) -> (n: usize)
        ensures
            n == self.failed(),
            n == self.attempted() - self.succeeded(),
    {
        proof {
            use_type_invariant(self);
        }
        self.total_failures
    }

    /// The whole seconds that the run took.
    pub fn total_time(&self) -> (seconds: u64)
        ensures
            seconds == self.elapsed(),
    {
        self.total_time
    }

    /// The pass rate in hundredths of a percent, so that 10000 stands for all
    /// passed.
    pub fn pass_rate_hundredths(&self) -> (rate: u32)
        ensures
            rate == pass_rate(self.succeeded(), self.attempted()),
            rate <= 10000,
            self.attempted() == 0 ==> rate == 0,
    {
        proof {
            use_type_invariant(self);
            lemma_pass_rate(self.succeeded(), self.attempted());
        }
        if self.total_exercations == 0 {
            return 0;
        }
        let succeeded: u128 = self.total_succeeds as u128;
        let attempted: u128 = self.total_exercations as u128;
        let rate: u128 = (20000 * succeeded + attempted) / (2 * attempted);
        rate as u32
    }
}

/// The report of a run: every result, in the order of grading, and the totals.
///
/// The totals are always those of the results held.
#[derive(Debug)]
pub struct GradeResult {
    exercises: Vec<ExerciseResult>,
    statistics: Statistics,
}

impl View for GradeResult {
    type V = Seq<Record>;

    closed spec fn view(&self) -> Seq<Record> {
        records(self.exercises@)
    }
}

impl GradeResult {
    #[verifier::type_invariant]
    spec fn totals_agree(&self) -> bool {
        self.statistics.summarizes(records(self.exercises@))
    }

    /// The totals held, as a value.
    pub closed spec fn totals(&self) -> Statistics {
        self.statistics
    }

    /// Folds the outcomes of the courses, in the order of grading, into one
    /// report.
    pub fn aggregate(outcomes: Vec<CourseOutcome>, total_time: u64) -> (report: GradeResult)
        ensures
            report@ == outcomes@.map_values(|o: CourseOutcome| o@).flatten(),
            report.totals().summarizes(report@),
            report.totals().elapsed() == total_time,
    {
        let ghost parts = outcomes@.map_values(|o: CourseOutcome| o@);
        let mut all = CourseOutcome::new();
        for outcome in it: outcomes
            invariant
                it.seq() == outcomes@,
                parts == outcomes@.map_values(|o: CourseOutcome| o@),
                all@ == parts.take(it.index()).flatten(),
        {
            proof {
                let seen = parts.take(it.index());
                assert(parts.take(it.index() + 1) =~= seen.push(outcome@));
                seen.lemma_flatten_push(outcome@);
            }
            all.absorb(outcome);
        }
        assert(parts.take(outcomes@.len() as int) =~= parts);
        let statistics = Statistics::of(&all, total_time);
        GradeResult { exercises: all.into_results(), statistics }
    }

    /// Every result, in the order of grading.
    pub fn exercises(&self) -> (exercises: &Vec<ExerciseResult>)
        ensures
            records(exercises@) == self@,
    {
        &self.exercises
    }

    /// The totals of the run, which are those of its results.
    pub fn statistics(&self) -> (statistics: &Statistics)
        ensures
            *statistics == self.totals(),
            statistics.summarizes(self@),
    {
        proof {
            use_type_invariant(self);
        }
        &self.statistics
    }

    /// The names of the exercises that failed, in the order of grading.
    pub fn failed_names(&self) -> (names: Vec<String>)
        ensures
            names@.map_values(|n: String| n@) == failed_names(self@),
    {
        let mut names: Vec<String> = Vec::new();
        let ghost all = self@;
        let mut i: usize = 0;
        proof {
            reveal(Seq::filter);
            assert(names@.map_values(|n: String| n@) =~= failed_names(all.take(0)));
        }
        while i < self.exercises.len()
            invariant
                i <= self.exercises@.len(),
                all == records(self.exercises@),
                names@.map_values(|n: String| n@) == failed_names(all.take(i as int)),
            decreases self.exercises@.len() - i,
        {
            let ghost before = names@;
            proof {
                let seen = all.take(i as int);
                assert(all.take(i + 1) =~= seen.push(all[i as int]));
                lemma_counts_push(seen, all[i as int]);
            }
            if !self.exercises[i].result {
                names.push(self.exercises[i].name.clone());
                assert(names@.map_values(|n: String| n@) =~= before.map_values(|n: String| n@).push(
                    all[i as int].name,
                ));
                assert(failed(all.take(i as int)).push(all[i as int]).map_values(
                    |r: Record| r.name,
                ) =~= failed_names(all.take(i as int)).push(all[i as int].name));
            }
            i = i + 1;
        }
        assert(all.take(i as int) =~= all);
        names
    }
}

} // verus!
