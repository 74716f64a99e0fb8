//! Grading of the exercises of programming courses.
//!
//! A run grades the courses below an exercises root, each by the strategy that
//! fits it, and folds the verdicts into one report. The outside tools are run
//! by the caller; this library decides what is run and makes of the answers the
//! results and their totals:
//!
//! - `run` settles the exercises root and the courses to grade;
//! - `strategy` picks a course's strategy and holds the unit-test strategy;
//! - `summary` reads verdicts out of a summary command's output;
//! - `locator` tells the exercise files of a course, and `grading` the steps by
//!   which one file is graded;
//! - `command` holds the command lines of the tools;
//! - `report` holds the results, their counts and the report of a run;
//! - `provision` holds the steps by which a course is brought in;
//! - `text` and `escape` hold what the others need to read text.

pub mod command;
pub mod escape;
pub mod grading;
pub mod locator;
pub mod provision;
pub mod report;
pub mod run;
pub mod strategy;
pub mod summary;
pub mod text;
