//! Outcomes of validator tests and fuzzing chunks.

use crate::text::{join_lines, join_with_newlines};
use vstd::prelude::*;

verus! {

/// The result of running a test. Skipped and failed tests may optionally include an explanation
/// for why this happened.
#[allow(inconsistent_fields)]
pub enum TestStatus {
    /// The test passed successfully.
    Success { details: Option<String> },
    /// The plugin crashed while running the test. Only caught for out-of-process validation.
    Crashed { details: String },
    /// The test failed.
    Failed { details: Option<String> },
    /// Preconditions for running the test were not met, so the test has been skipped.
    Skipped { details: Option<String> },
    /// The test did not succeed, but this should not be treated as a hard failure.
    Warning { details: Option<String> },
}

impl TestStatus {
    /// The details text of a status, as a character sequence.
    pub open spec fn spec_details(&self) -> Option<Seq<char>> {
        match self {
            TestStatus::Success { details } => match details {
                Some(d) => Some(d@),
                None => None,
            },
            TestStatus::Failed { details } => match details {
                Some(d) => Some(d@),
                None => None,
            },
            TestStatus::Skipped { details } => match details {
                Some(d) => Some(d@),
                None => None,
            },
            TestStatus::Warning { details } => match details {
                Some(d) => Some(d@),
                None => None,
            },
            TestStatus::Crashed { details } => Some(details@),
        }
    }

    /// Returns `true` if tests with this status should be shown when only failed tests are
    /// requested.
    pub fn failed_or_warning(&self) -> (r: bool)
        ensures
            r == (self is Warning || self is Crashed || self is Failed),
    {
        match self {
            TestStatus::Success { .. } | TestStatus::Skipped { .. } => false,
            TestStatus::Warning { .. } | TestStatus::Crashed { .. } | TestStatus::Failed { .. } => true,
        }
    }

    /// Get the textual explanation for the test status, if this is available.
    pub fn details(&self) -> (r: Option<&str>)
        ensures
            match r {
                Some(s) => self.spec_details() == Some(s@),
                None => self.spec_details() is None,
            },
    {
        match self {
            TestStatus::Success { details }
            | TestStatus::Failed { details }
            | TestStatus::Skipped { details }
            | TestStatus::Warning { details } => match details {
                Some(d) => Some(d.as_str()),
                None => None,
            },
            TestStatus::Crashed { details } => Some(details.as_str()),
        }
    }
}

/// The outcome of a fuzzing chunk.
#[allow(inconsistent_fields)]
pub enum FuzzStatus {
    Success,
    Failed { details: String },
    Crashed { details: String },
}

impl FuzzStatus {
    /// The details text of a status, as a character sequence.
    pub open spec fn spec_details(&self) -> Option<Seq<char>> {
        match self {
            FuzzStatus::Success => None,
            FuzzStatus::Failed { details } => Some(details@),
            FuzzStatus::Crashed { details } => Some(details@),
        }
    }

    /// The explanation for a failure or a crash.
    pub fn details(&self) -> (r: Option<&str>)
        ensures
            match r {
                Some(s) => self.spec_details() == Some(s@),
                None => self.spec_details() is None,
            },
    {
        match self {
            FuzzStatus::Success => None,
            FuzzStatus::Failed { details } | FuzzStatus::Crashed { details } => Some(
                details.as_str(),
            ),
        }
    }

    /// Whether the chunk succeeded.
    pub fn is_success(&self) -> (r: bool)
        ensures
            r == (self is Success),
    {
        match self {
            FuzzStatus::Success => true,
            _ => false,
        }
    }
}

/// A test of the plugin library suite: its kebab-case name and what it checks.
pub struct PluginLibraryTestCase {
    pub name: String,
    pub description: String,
}

/// A test of the plugin instance suite: its kebab-case name and what it checks.
pub struct PluginInstanceTestCase {
    pub name: String,
    pub description: String,
}

/// A description for a single test invocation. This contains all of the information necessary
/// to run a single test.
#[allow(inconsistent_fields)]
pub enum TestCase {
    PluginLibrary { test: PluginLibraryTestCase, path: String },
    PluginInstance { test: PluginInstanceTestCase, path: String, plugin_id: String },
}

/// The library, or the plugin within a library, that a test is about.
pub enum TestGroup {
    PluginLibrary(String),
    PluginInstance(String, String),
}

/// The result of running a test, with how long it took.
pub struct TestResult {
    pub test: TestCase,
    pub status: TestStatus,
    pub duration: std::time::Duration,
}

impl TestCase {
    /// The name of the test.
    pub open spec fn spec_name(&self) -> Seq<char> {
        match self {
            TestCase::PluginLibrary { test, .. } => test.name@,
            TestCase::PluginInstance { test, .. } => test.name@,
        }
    }

    /// The description of the test.
    pub open spec fn spec_description(&self) -> Seq<char> {
        match self {
            TestCase::PluginLibrary { test, .. } => test.description@,
            TestCase::PluginInstance { test, .. } => test.description@,
        }
    }

    /// The test's name, as shown to the user and accepted on the command line.
    pub fn name(&self) -> (r: String)
        ensures
            r@ == self.spec_name(),
    {
        match self {
            TestCase::PluginLibrary { test, .. } => test.name.clone(),
            TestCase::PluginInstance { test, .. } => test.name.clone(),
        }
    }

    /// What the test checks.
    pub fn description(&self) -> (r: String)
        ensures
            r@ == self.spec_description(),
    {
        match self {
            TestCase::PluginLibrary { test, .. } => test.description.clone(),
            TestCase::PluginInstance { test, .. } => test.description.clone(),
        }
    }

    /// The library, or the plugin within a library, that the test is about.
    pub fn group(&self) -> (r: TestGroup)
        ensures
            match self {
                TestCase::PluginLibrary { path, .. } => r matches TestGroup::PluginLibrary(p)
                    && p@ == path@,
                TestCase::PluginInstance { path, plugin_id, .. } => r matches TestGroup::PluginInstance(
                    p,
                    id,
                ) && p@ == path@ && id@ == plugin_id@,
            },
    {
        match self {
            TestCase::PluginLibrary { path, .. } => TestGroup::PluginLibrary(path.clone()),
            TestCase::PluginInstance { path, plugin_id, .. } => TestGroup::PluginInstance(
                path.clone(),
                plugin_id.clone(),
            ),
        }
    }

    /// The status of a test from what running it gave: its status, or the chain of error
    /// messages it failed with, which becomes a failure whose details list the messages one per
    /// line.
    pub fn run(&self, outcome: Result<TestStatus, Vec<String>>) -> (r: TestStatus)
        ensures
            match outcome {
                Ok(s) => r == s,
                Err(chain) => r matches TestStatus::Failed { details: Some(d) } && d@ == join_lines(
                    chain@.map_values(|s: String| s@),
                ),
            },
    {
        match outcome {
            Ok(s) => s,
            Err(chain) => TestStatus::Failed { details: Some(join_with_newlines(&chain)) },
        }
    }
}

/// How many tests ended in each way.
#[derive(Clone, Copy, PartialEq, Eq, Structural, Debug)]
pub struct ValidationTally {
    pub num_passed: u64,
    pub num_failed: u64,
    pub num_skipped: u64,
    pub num_warnings: u64,
}

/// The kind of a status that the tally counts it under: a crash counts as a failure.
pub open spec fn tally_kind(s: TestStatus) -> u8 {
    match s {
        TestStatus::Success { .. } => 0,
        TestStatus::Failed { .. } => 1,
        TestStatus::Crashed { .. } => 1,
        TestStatus::Skipped { .. } => 2,
        TestStatus::Warning { .. } => 3,
    }
}

/// How many of the results are counted under `kind`.
pub open spec fn count_kind(results: Seq<TestResult>, kind: u8) -> nat
    decreases results.len(),
{
    if results.len() == 0 {
        0
    } else {
        count_kind(results.drop_last(), kind) + if tally_kind(results.last().status) == kind {
            1nat
        } else {
            0nat
        }
    }
}

/// The counts of a tally add up to the number of results.
pub proof fn lemma_tally_total(results: Seq<TestResult>)
    ensures
        count_kind(results, 0) + count_kind(results, 1) + count_kind(results, 2) + count_kind(results, 3)
            == results.len(),
    decreases results.len(),
{
    if results.len() > 0 {
        lemma_tally_total(results.drop_last());
    }
}

impl ValidationTally {
    /// Count the results by status.
    pub fn from_results(results: &Vec<TestResult>) -> (r: ValidationTally)
        ensures
            r.num_passed == count_kind(results@, 0),
            r.num_failed == count_kind(results@, 1),
            r.num_skipped == count_kind(results@, 2),
            r.num_warnings == count_kind(results@, 3),
    {
        let mut t = ValidationTally { num_passed: 0, num_failed: 0, num_skipped: 0, num_warnings: 0 };
        let mut i: usize = 0;
        while i < results.len()
            invariant
                i <= results@.len(),
                t.num_passed == count_kind(results@.subrange(0, i as int), 0),
                t.num_failed == count_kind(results@.subrange(0, i as int), 1),
                t.num_skipped == count_kind(results@.subrange(0, i as int), 2),
                t.num_warnings == count_kind(results@.subrange(0, i as int), 3),
            decreases results.len() - i,
        {
            proof {
                let pre = results@.subrange(0, i + 1);
                assert(pre.drop_last() =~= results@.subrange(0, i as int));
                lemma_tally_total(results@.subrange(0, i as int));
            }
            match results[i].status {
                TestStatus::Success { .. } => t.num_passed = t.num_passed + 1,
                TestStatus::Failed { .. } | TestStatus::Crashed { .. } => t.num_failed = t.num_failed + 1,
                TestStatus::Skipped { .. } => t.num_skipped = t.num_skipped + 1,
                TestStatus::Warning { .. } => t.num_warnings = t.num_warnings + 1,
            }
            i = i + 1;
        }
        assert(results@.subrange(0, results@.len() as int) =~= results@);
        t
    }

    /// The number of tests counted.
    pub fn total(&self) -> (r: u64)
        requires
            self.num_passed + self.num_failed + self.num_skipped + self.num_warnings <= u64::MAX,
        ensures
            r == self.num_passed + self.num_failed + self.num_skipped + self.num_warnings,
    {
        self.num_passed + self.num_failed + self.num_skipped + self.num_warnings
    }

    /// Whether the validator exits successfully: no test failed or crashed.
    pub fn is_success(&self) -> (r: bool)
        ensures
            r == (self.num_failed == 0),
    {
        self.num_failed == 0
    }
}

/// The label shown for a status in the report.
pub fn status_label(status: &TestStatus) -> (r: &'static str)
    ensures
        r@ == match *status {
            TestStatus::Success { .. } => "PASSED"@,
            TestStatus::Skipped { .. } => "SKIPPED"@,
            TestStatus::Warning { .. } => "WARNING"@,
            TestStatus::Failed { .. } => "FAILED"@,
            TestStatus::Crashed { .. } => "CRASHED"@,
        },
{
    match status {
        TestStatus::Success { .. } => "PASSED",
        TestStatus::Skipped { .. } => "SKIPPED",
        TestStatus::Warning { .. } => "WARNING",
        TestStatus::Failed { .. } => "FAILED",
        TestStatus::Crashed { .. } => "CRASHED",
    }
}

/// Whether a result is shown when only failed tests are requested.
pub open spec fn shown_when_only_failed(r: TestResult) -> bool {
    r.status is Warning || r.status is Crashed || r.status is Failed
}

/// The results to show with `--only-failed`: those that failed, crashed or warned, in order.
pub fn only_failed(results: Vec<TestResult>) -> (r: Vec<TestResult>)
    ensures
        r@ == results@.filter(|t: TestResult| shown_when_only_failed(t)),
{
    let ghost all = results@;
    let mut kept: Vec<TestResult> = Vec::new();
    let mut rest = results;
    let n = rest.len();
    assert(all.subrange(0, 0).filter(|t: TestResult| shown_when_only_failed(t)) =~= Seq::<TestResult>::empty()) by {
        reveal(Seq::filter);
    }
    while rest.len() > 0
        invariant
            n == all.len(),
            rest@.len() <= n,
            rest@ == all.subrange(n - rest@.len(), n as int),
            kept@ == all.subrange(0, n - rest@.len()).filter(|t: TestResult| shown_when_only_failed(t)),
        decreases rest.len(),
    {
        let k = n - rest.len();
        assert(rest@[0] == all[k as int]);
        let t = rest.remove(0);
        proof {
            let pre = all.subrange(0, k + 1);
            assert(pre.drop_last() =~= all.subrange(0, k as int));
            assert(pre.last() == t);
            reveal(Seq::filter);
            assert(rest@ =~= all.subrange(k + 1, n as int));
        }
        if t.status.failed_or_warning() {
            kept.push(t);
        }
    }
    assert(all.subrange(0, n as int) =~= all);
    kept
}

} // verus!
