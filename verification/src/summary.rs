//! The structured-summary strategy: reading verdicts out of a tool's line-oriented
//! output.
//!
//! A line reports a verdict when it holds the exercise marker and one of the two
//! outcome markers, and no error marker. Its first run of visible characters,
//! cleaned of terminal escape sequences, names the exercise. Where the first
//! stream reports nothing, the second is read in its place, and the names found
//! there are brought to the canonical form.

use vstd::prelude::*;
use vstd::slice::slice_subrange;
use vstd::string::*;
use crate::escape::{regex_compiles, strip_escapes, without_escapes, PatternError, ESCAPE_PATTERN};
use crate::report::{records, CourseOutcome, ExerciseResult, Record};
use crate::text::{
    contains, contains_chars, first_token, lemma_find_from, lines, lines_from, next_line,
    occurs_at, starts_with, to_chars, token_bounds, trim_start, trimmed_start, white_space,
    CharClass,
};

verus! {

/// A line that holds this text reports an error and no verdict.
pub const ERROR_MARKER: &'static str = "error:";

/// A line reports a verdict only if it holds this text.
pub const EXERCISE_MARKER: &'static str = "exercise";

/// The outcome marker of an exercise that passed.
pub const PASSED_MARKER: &'static str = "passed";

/// The outcome marker of an exercise that failed.
pub const FAILED_MARKER: &'static str = "failed";

/// Whether `line` reports a verdict.
pub open spec fn is_record_line(line: Seq<char>) -> bool {
    &&& !contains(line, ERROR_MARKER@)
    &&& contains(line, EXERCISE_MARKER@)
    &&& (contains(line, PASSED_MARKER@) || contains(line, FAILED_MARKER@))
}

/// What `line` reports, before its name is cleaned: the first run of visible
/// characters and the verdict.
pub open spec fn sighting(line: Seq<char>) -> Option<(Seq<char>, bool)> {
    if is_record_line(line) {
        match first_token(line) {
            Some(token) => Some((token, contains(line, PASSED_MARKER@))),
            None => None,
        }
    } else {
        None
    }
}

/// The name under which a cleaned token is recorded. On the second stream the
/// exercise marker is taken off the front, as often as it stands there, and put
/// back once.
pub open spec fn record_name(clean: Seq<char>, fallback: bool) -> Seq<char> {
    if fallback {
        EXERCISE_MARKER@ + trim_start(clean, EXERCISE_MARKER@)
    } else {
        clean
    }
}

/// The record that `line` contributes, if it reports a verdict.
pub open spec fn line_record(line: Seq<char>, fallback: bool) -> Option<Record> {
    match sighting(line) {
        Some((token, passed)) => Some(
            Record { name: record_name(without_escapes(token), fallback), result: passed },
        ),
        None => None,
    }
}

/// The function from a line to the record it contributes.
pub open spec fn recorder(fallback: bool) -> spec_fn(Seq<char>) -> Option<Record> {
    |line: Seq<char>| line_record(line, fallback)
}

/// The records that one stream reports, in the order of its lines.
pub open spec fn stream_records(text: Seq<char>, fallback: bool) -> Seq<Record> {
    lines(text).filter_map(recorder(fallback))
}

/// The records of a summary: those of the first stream, or, where it reports
/// none, those of the second, read as the fallback.
pub open spec fn summary_records(stdout: Seq<char>, stderr: Seq<char>) -> Seq<Record> {
    if stream_records(stdout, false).len() > 0 {
        stream_records(stdout, false)
    } else {
        stream_records(stderr, true)
    }
}

/// A line that holds the error marker contributes no record, whatever else it
/// holds.
pub proof fn lemma_error_line_is_skipped(line: Seq<char>, fallback: bool)
    requires
        contains(line, ERROR_MARKER@),
    ensures
        line_record(line, fallback) is None,
{
}

/// Every line that reports a verdict contributes a record: such a line holds
/// the exercise marker, so it has a first token.
pub proof fn lemma_record_line_is_recorded(line: Seq<char>, fallback: bool)
    ensures
        line_record(line, fallback) is Some <==> is_record_line(line),
        line_record(line, fallback) matches Some(r) ==> r.result == contains(line, PASSED_MARKER@),
{
    if is_record_line(line) {
        reveal_strlit("exercise");
        let at = choose|at: int| occurs_at(line, at, EXERCISE_MARKER@);
        assert(line.subrange(at, at + EXERCISE_MARKER@.len())[0] == 'e');
        assert(!white_space(line[at]));
        lemma_find_from(line, 0, CharClass::Visible);
    }
}

/// A stream reports one record for each of its lines that reports a verdict, in
/// the order of those lines; lines that report the same name are recorded each
/// by itself.
pub proof fn lemma_one_record_for_each_record_line(text: Seq<char>, fallback: bool)
    ensures
        stream_records(text, fallback) == lines(text).filter(|line: Seq<char>| is_record_line(line))
            .map_values(|line: Seq<char>| line_record(line, fallback).unwrap()),
        stream_records(text, fallback).len() <= lines(text).len(),
{
    lemma_filter_map_is_filter_then_map(lines(text), fallback);
    lines(text).lemma_filter_len(|line: Seq<char>| is_record_line(line));
}

/// What `lemma_one_record_for_each_record_line` says, of any sequence of lines.
proof fn lemma_filter_map_is_filter_then_map(all: Seq<Seq<char>>, fallback: bool)
    ensures
        all.filter_map(recorder(fallback)) == all.filter(|line: Seq<char>| is_record_line(line))
            .map_values(|line: Seq<char>| line_record(line, fallback).unwrap()),
    decreases all.len(),
{
    reveal(Seq::filter);
    let kept = |line: Seq<char>| is_record_line(line);
    let made = |line: Seq<char>| line_record(line, fallback).unwrap();
    if all.len() == 0 {
        assert(all.filter_map(recorder(fallback)) =~= all.filter(kept).map_values(made));
    } else {
        let front = all.drop_last();
        lemma_filter_map_is_filter_then_map(front, fallback);
        lemma_record_line_is_recorded(all.last(), fallback);
        if is_record_line(all.last()) {
            assert(front.filter(kept).push(all.last()).map_values(made) =~= front.filter(
                kept,
            ).map_values(made) + seq![made(all.last())]);
        }
    }
}

/// The second stream is read only where the first reports nothing, and a name
/// read from it begins with the exercise marker.
pub proof fn lemma_fallback(stdout: Seq<char>, stderr: Seq<char>)
    ensures
        stream_records(stdout, false).len() > 0 ==> summary_records(stdout, stderr)
            == stream_records(stdout, false),
        stream_records(stdout, false).len() == 0 ==> summary_records(stdout, stderr)
            == stream_records(stderr, true),
        forall|clean: Seq<char>| #[trigger]
            starts_with(record_name(clean, true), EXERCISE_MARKER@),
{
    assert forall|clean: Seq<char>| #[trigger]
        starts_with(record_name(clean, true), EXERCISE_MARKER@) by {
        let name = record_name(clean, true);
        assert(name.subrange(0, EXERCISE_MARKER@.len() as int) =~= EXERCISE_MARKER@);
    }
}

/// The records of two runs of lines, one after the other, are the records of
/// the first followed by those of the second.
proof fn lemma_filter_map_add<A, B>(a: Seq<A>, b: Seq<A>, f: spec_fn(A) -> Option<B>)
    ensures
        (a + b).filter_map(f) == a.filter_map(f) + b.filter_map(f),
    decreases b.len(),
{
    if b.len() == 0 {
        assert(a + b =~= a);
        assert(a.filter_map(f) + b.filter_map(f) =~= a.filter_map(f));
    } else {
        assert((a + b).drop_last() =~= a + b.drop_last());
        lemma_filter_map_add(a, b.drop_last(), f);
        match f(b.last()) {
            Some(r) => {
                assert((a.filter_map(f) + b.drop_last().filter_map(f)) + seq![r] =~= a.filter_map(
                    f,
                ) + (b.drop_last().filter_map(f) + seq![r]));
            },
            None => {},
        }
    }
}

/// The markers, as characters.
struct Markers {
    error: Vec<char>,
    exercise: Vec<char>,
    passed: Vec<char>,
    failed: Vec<char>,
}

impl Markers {
    spec fn wf(&self) -> bool {
        &&& self.error@ == ERROR_MARKER@
        &&& self.exercise@ == EXERCISE_MARKER@
        &&& self.passed@ == PASSED_MARKER@
        &&& self.failed@ == FAILED_MARKER@
    }

    fn new() -> (markers: Markers)
        ensures
            markers.wf(),
    {
        Markers {
            error: to_chars(ERROR_MARKER),
            exercise: to_chars(EXERCISE_MARKER),
            passed: to_chars(PASSED_MARKER),
            failed: to_chars(FAILED_MARKER),
        }
    }

    /// Looks for a verdict in `line`: the bounds of its first token and whether
    /// it passed.
    fn scan(&self, line: &[char]) -> (found: Option<(usize, usize, bool)>)
        requires
            self.wf(),
        ensures
            match found {
                Some((start, end, passed)) => start < end <= line@.len() && sighting(line@) == Some(
                    (line@.subrange(start as int, end as int), passed),
                ),
                None => sighting(line@) is None,
            },
    {
        if contains_chars(line, self.error.as_slice()) {
            return None;
        }
        if !contains_chars(line, self.exercise.as_slice()) {
            return None;
        }
        let passed = contains_chars(line, self.passed.as_slice());
        if !passed && !contains_chars(line, self.failed.as_slice()) {
            return None;
        }
        match token_bounds(line) {
            Some((start, end)) => Some((start, end, passed)),
            None => None,
        }
    }
}

/// Looks for a verdict in `line`: its first run of visible characters, not yet
/// cleaned, and whether it passed.
pub fn scan_line(line: &str) -> (found: Option<(String, bool)>)
    ensures
        match found {
            Some((token, passed)) => sighting(line@) == Some((token@, passed)),
            None => sighting(line@) is None,
        },
        contains(line@, ERROR_MARKER@) ==> found is None,
{
    let chars = to_chars(line);
    let markers = Markers::new();
    match markers.scan(chars.as_slice()) {
        Some((start, end, passed)) => {
            let token = line.substring_char(start, end);
            Some((token.to_owned(), passed))
        },
        None => None,
    }
}

/// The canonical form of a name read from the second stream: the exercise
/// marker, followed by `clean` without any exercise markers at its front.
pub fn canonical_name(clean: &str) -> (name: String)
    ensures
        name@ == record_name(clean@, true),
{
    let chars = to_chars(clean);
    let marker = to_chars(EXERCISE_MARKER);
    let at = trimmed_start(chars.as_slice(), marker.as_slice());
    let rest = clean.substring_char(at, chars.len());
    assert(clean@.subrange(at as int, clean@.len() as int) =~= clean@.skip(at as int));
    EXERCISE_MARKER.to_owned().concat(rest)
}

/// Makes the result of one sighting from its cleaned name.
pub fn make_record(clean: String, passed: bool, fallback: bool) -> (result: ExerciseResult)
    ensures
        result@ == (Record { name: record_name(clean@, fallback), result: passed }),
{
    let name = if fallback {
        canonical_name(clean.as_str())
    } else {
        clean
    };
    ExerciseResult { name, result: passed }
}

/// Reads the verdicts that one stream reports, in the order of its lines.
///
/// Fails exactly where the regular expression engine refuses the escape
/// pattern, whatever the stream holds.
pub fn parse_stream(text: &str, fallback: bool) -> (out: Result<Vec<ExerciseResult>, PatternError>)
    ensures
        out is Ok <==> regex_compiles(ESCAPE_PATTERN@),
        out matches Ok(results) ==> records(results@) == stream_records(text@, fallback),
{
    // The pattern is tried before anything is read, so that its refusal is
    // reported whatever the stream holds.
    match strip_escapes("") {
        Ok(_) => {},
        Err(e) => {
            return Err(e);
        },
    }
    let chars = to_chars(text);
    let markers = Markers::new();
    let mut results: Vec<ExerciseResult> = Vec::new();
    let mut from: usize = 0;
    let ghost f = recorder(fallback);
    proof {
        assert(records(results@) =~= Seq::<Record>::empty());
        assert(records(results@) + lines_from(chars@, 0).filter_map(f) =~= lines(text@).filter_map(
            f,
        ));
    }
    loop
        invariant
            chars@ == text@,
            markers.wf(),
            f == recorder(fallback),
            regex_compiles(ESCAPE_PATTERN@),
            stream_records(text@, fallback) == records(results@) + lines_from(
                chars@,
                from as int,
            ).filter_map(f),
        ensures
            stream_records(text@, fallback) == records(results@),
        decreases chars@.len() - from,
    {
        let (end, next) = match next_line(chars.as_slice(), from) {
            Some(bounds) => bounds,
            None => {
                proof {
                    assert(records(results@) + Seq::<Record>::empty() =~= records(results@));
                }
                break;
            },
        };
        let line = slice_subrange(chars.as_slice(), from, end);
        let ghost rest = lines_from(chars@, next as int);
        let ghost before = records(results@);
        proof {
            lemma_filter_map_add(seq![line@], rest, f);
            assert(seq![line@].drop_last() =~= Seq::<Seq<char>>::empty());
            assert(seq![line@].last() == line@);
            assert(Seq::<Seq<char>>::empty().filter_map(f) =~= Seq::<Record>::empty());
        }
        match markers.scan(line) {
            Some((start, end_of_token, passed)) => {
                let token = text.substring_char(from + start, from + end_of_token);
                assert(token@ =~= line@.subrange(start as int, end_of_token as int));
                match strip_escapes(token) {
                    Ok(clean) => {
                        let result = make_record(clean, passed, fallback);
                        results.push(result);
                        proof {
                            assert(f(line@) == Some(result@));
                            assert(seq![line@].filter_map(f) =~= seq![result@]);
                            assert(records(results@) =~= before.push(result@));
                            assert(before.push(result@) + rest.filter_map(f) =~= before + (
                            seq![result@] + rest.filter_map(f)));
                        }
                    },
                    Err(e) => {
                        return Err(e);
                    },
                }
            },
            None => {
                proof {
                    assert(f(line@) is None);
                    assert(seq![line@].filter_map(f) =~= Seq::<Record>::empty());
                    assert(Seq::<Record>::empty() + rest.filter_map(f) =~= rest.filter_map(f));
                }
            },
        }
        from = next;
    }
    Ok(results)
}

/// Reads the verdicts of a summary from the tool's two output streams: those
/// that `stdout` reports or, where it reports none, those that `stderr` reports,
/// with their names in canonical form.
///
/// Fails exactly where the regular expression engine refuses the escape
/// pattern.
pub fn parse_summary(stdout: &str, stderr: &str) -> (out: Result<CourseOutcome, PatternError>)
    ensures
        out is Ok <==> regex_compiles(ESCAPE_PATTERN@),
        out matches Ok(outcome) ==> outcome@ == summary_records(stdout@, stderr@),
{
    let first = parse_stream(stdout, false)?;
    if first.len() > 0 {
        Ok(CourseOutcome::from_results(first))
    } else {
        let second = parse_stream(stderr, true)?;
        Ok(CourseOutcome::from_results(second))
    }
}

} // verus!
