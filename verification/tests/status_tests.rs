use clap_validator::status::ValidationTally;
use clap_validator::status::{only_failed, status_label};
use clap_validator::config::Config;
use clap_validator::panic::{panic_message, PanicPayload, TestFailure};
use clap_validator::status::{
    FuzzStatus, PluginInstanceTestCase, PluginLibraryTestCase, TestCase, TestGroup, TestStatus,
};

#[test]
fn test_enabled_by_default() {
    let config = Config::default();
    assert!(config.is_test_enabled("state-reproducibility-binary"));
}

#[test]
fn test_disabled_by_config() {
    let mut config = Config::default();
    config.test.insert("state-reproducibility-binary".to_string(), false);
    config.test.insert("param-conversions".to_string(), true);
    assert!(!config.is_test_enabled("state-reproducibility-binary"));
    assert!(config.is_test_enabled("param-conversions"));
    assert!(config.is_test_enabled("something-else"));
}

#[test]
fn test_config_last_value_wins() {
    let mut config = Config::default();
    config.test.insert("a".to_string(), false);
    config.test.insert("a".to_string(), true);
    assert!(config.is_test_enabled("a"));
    assert_eq!(config.test.len(), 1);
}

#[test]
fn test_panic_message_kinds() {
    assert_eq!(
        panic_message(&PanicPayload::Message("index out of bounds".to_string())),
        "index out of bounds. This is a bug in the validator"
    );
    assert_eq!(
        panic_message(&PanicPayload::TestFailure(TestFailure("plugin broke".to_string()))),
        "plugin broke"
    );
    assert_eq!(
        panic_message(&PanicPayload::Other),
        "A panic occurred. This is a bug in the validator"
    );
}

#[test]
fn test_status_filters() {
    assert!(!TestStatus::Success { details: None }.failed_or_warning());
    assert!(!TestStatus::Skipped { details: Some("x".to_string()) }.failed_or_warning());
    assert!(TestStatus::Warning { details: None }.failed_or_warning());
    assert!(TestStatus::Crashed { details: "boom".to_string() }.failed_or_warning());
    assert!(TestStatus::Failed { details: None }.failed_or_warning());
}

#[test]
fn test_status_details() {
    assert_eq!(TestStatus::Crashed { details: "boom".to_string() }.details(), Some("boom"));
    assert_eq!(TestStatus::Failed { details: None }.details(), None);
    assert_eq!(TestStatus::Skipped { details: Some("why".to_string()) }.details(), Some("why"));
    assert_eq!(FuzzStatus::Success.details(), None);
    assert_eq!(FuzzStatus::Failed { details: "bad".to_string() }.details(), Some("bad"));
    assert_eq!(FuzzStatus::Crashed { details: "dead".to_string() }.details(), Some("dead"));
}

fn library_case() -> TestCase {
    TestCase::PluginLibrary {
        test: PluginLibraryTestCase {
            name: "scan-time".to_string(),
            description: "Checks scanning time.".to_string(),
        },
        path: "/usr/lib/clap/a.clap".to_string(),
    }
}

#[test]
fn test_case_name_description_group() {
    let case = library_case();
    assert_eq!(case.name(), "scan-time");
    assert_eq!(case.description(), "Checks scanning time.");
    match case.group() {
        TestGroup::PluginLibrary(p) => assert_eq!(p, "/usr/lib/clap/a.clap"),
        _ => panic!("wrong group"),
    }
    let case = TestCase::PluginInstance {
        test: PluginInstanceTestCase {
            name: "process-audio".to_string(),
            description: "Processes audio.".to_string(),
        },
        path: "/p.clap".to_string(),
        plugin_id: "com.example.plugin".to_string(),
    };
    match case.group() {
        TestGroup::PluginInstance(p, id) => {
            assert_eq!(p, "/p.clap");
            assert_eq!(id, "com.example.plugin");
        }
        _ => panic!("wrong group"),
    }
}

#[test]
fn test_case_run_joins_error_chain() {
    let case = library_case();
    let status = case.run(Err(vec!["outer".to_string(), "inner".to_string()]));
    match status {
        TestStatus::Failed { details: Some(d) } => assert_eq!(d, "outer\ninner"),
        _ => panic!("expected a failure"),
    }
    let status = case.run(Ok(TestStatus::Success { details: None }));
    assert!(matches!(status, TestStatus::Success { details: None }));
}

fn result_with(status: TestStatus) -> clap_validator::status::TestResult {
    clap_validator::status::TestResult {
        test: TestCase::PluginInstance {
            test: PluginInstanceTestCase {
                name: "param-conversions".to_string(),
                description: "Converts parameter values".to_string(),
            },
            path: "/a.clap".to_string(),
            plugin_id: "x".to_string(),
        },
        status,
        duration: std::time::Duration::from_millis(5),
    }
}

#[test]
fn test_validation_tally() {
    let results = vec![
        result_with(TestStatus::Success { details: None }),
        result_with(TestStatus::Crashed { details: "x".to_string() }),
        result_with(TestStatus::Failed { details: None }),
        result_with(TestStatus::Skipped { details: None }),
        result_with(TestStatus::Warning { details: None }),
        result_with(TestStatus::Success { details: None }),
    ];
    let tally = ValidationTally::from_results(&results);
    assert_eq!(
        tally,
        ValidationTally { num_passed: 2, num_failed: 2, num_skipped: 1, num_warnings: 1 }
    );
    assert_eq!(tally.total(), 6);
    assert!(!tally.is_success());
    let ok = ValidationTally::from_results(&vec![result_with(TestStatus::Warning { details: None })]);
    assert!(ok.is_success());
}

#[test]
fn test_only_failed_and_labels() {
    let results = vec![
        result_with(TestStatus::Success { details: None }),
        result_with(TestStatus::Warning { details: Some("slow".to_string()) }),
        result_with(TestStatus::Skipped { details: None }),
        result_with(TestStatus::Failed { details: Some("bad".to_string()) }),
    ];
    let shown = only_failed(results);
    assert_eq!(shown.len(), 2);
    assert_eq!(status_label(&shown[0].status), "WARNING");
    assert_eq!(status_label(&shown[1].status), "FAILED");
    assert_eq!(status_label(&TestStatus::Crashed { details: String::new() }), "CRASHED");
    assert_eq!(status_label(&TestStatus::Success { details: None }), "PASSED");
    assert_eq!(status_label(&TestStatus::Skipped { details: None }), "SKIPPED");
}
