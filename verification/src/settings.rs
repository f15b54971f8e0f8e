//! The options of the validator's commands.

use vstd::prelude::*;

verus! {

/// Options for the fuzzer.
pub struct FuzzSettings {
    /// Paths to one or more plugins that should be fuzzed.
    pub paths: Vec<String>,
    /// Only fuzz plugins with this ID.
    pub plugin_id: Option<String>,
    /// Print the output as JSON instead of human readable text.
    pub json: bool,
    /// Run the fuzzer for this many milliseconds before stopping.
    pub duration_millis: Option<u128>,
    /// How many fuzzing chunks run in parallel.
    pub jobs: Option<usize>,
    /// Emit a trace file while reproducing a seed.
    pub trace: bool,
    /// How many errors to collect before stopping the fuzzer.
    pub limit: usize,
    /// Run the fuzzer with this random seed in-process.
    pub reproduce: Option<u64>,
}

/// Options for the validator.
pub struct ValidatorSettings {
    /// Paths to one or more plugins that should be validated.
    pub paths: Vec<String>,
    /// Only validate plugins with this ID.
    pub plugin_id: Option<String>,
    /// Print the test output as JSON instead of human readable text.
    pub json: bool,
    /// Only run the tests that match one of these case-insensitive regular expressions.
    pub include_patterns: Vec<String>,
    /// Don't run the tests that match these case-insensitive regular expressions.
    pub exclude_patterns: Vec<String>,
    /// When running the validation out-of-process, hide the plugin's output.
    pub hide_output: bool,
    /// Only show failed tests.
    pub only_failed: bool,
    /// Run the tests within this process.
    pub in_process: bool,
    /// The amount of parallelism when running the tests out-of-process.
    pub jobs: Option<usize>,
    /// Emit a trace file when validating in-process.
    pub trace: bool,
}

/// The things the `list` command can list.
pub enum ListCommand {
    /// Basic information about all installed CLAP plugins.
    Plugins { json: bool, in_process: bool, hide_output: bool, paths: Option<Vec<String>> },
    /// The available presets for one, more, or all installed CLAP plugins.
    Presets {
        json: bool,
        in_process: bool,
        hide_output: bool,
        paths: Option<Vec<String>>,
        limit: Option<usize>,
    },
    /// All available test cases.
    Tests { json: bool },
}

/// The request handed to a sandboxed child process.
pub struct SandboxPayload {
    pub sandbox_id: String,
    pub sandbox_data: String,
    pub output_file: String,
}

} // verus!
