use subgraph_debug::metrics::{new_histogram, subgraph_instance_histogram, MetricError};

#[test]
fn instance_histogram_of_the_harness_is_refused() {
    assert!(matches!(subgraph_instance_histogram(), Err(MetricError::EmptyHelp)));
}

#[test]
fn histogram_with_plain_name_is_accepted() {
    assert!(new_histogram("", "", "block_trigger_count", "triggers per block").is_ok());
}

#[test]
fn histogram_name_components_are_joined() {
    assert!(new_histogram("deployment", "block", "processing_duration", "seconds").is_ok());
    assert!(new_histogram("deployment", "", "processing_duration", "seconds").is_ok());
    assert!(new_histogram("", "block", "processing_duration", "seconds").is_ok());
}

#[test]
fn histogram_with_empty_help_is_refused() {
    assert!(new_histogram("", "", "name", "").is_err());
}

#[test]
fn histogram_with_empty_name_is_refused() {
    assert!(new_histogram("ns", "sub", "", "help").is_err());
}

#[test]
fn histogram_name_may_not_open_with_a_digit() {
    assert!(new_histogram("", "", "9lives", "help").is_err());
    assert!(new_histogram("", "", "lives9", "help").is_ok());
}

#[test]
fn histogram_name_may_hold_colons_but_not_dashes() {
    assert!(new_histogram("", "", ":a:b_c", "help").is_ok());
    assert!(new_histogram("", "", "a-b", "help").is_err());
}

#[test]
fn invalid_namespace_makes_the_name_invalid() {
    assert!(new_histogram("1ns", "", "name", "help").is_err());
    assert!(new_histogram("1ns", "", "", "help").is_err());
}

#[test]
fn histogram_descriptor_holds_joined_name_and_help() {
    let d = new_histogram("deployment", "block", "processing_duration", "seconds").unwrap();
    assert_eq!(d.fq_name, "deployment_block_processing_duration");
    assert_eq!(d.help, "seconds");
    let d = new_histogram("", "block", "count", "triggers").unwrap();
    assert_eq!(d.fq_name, "block_count");
    let d = new_histogram("deployment", "", "count", "triggers").unwrap();
    assert_eq!(d.fq_name, "deployment_count");
    let d = new_histogram("", "", "count", "triggers").unwrap();
    assert_eq!(d.fq_name, "count");
}

#[test]
fn refusal_says_which_check_failed() {
    assert!(matches!(new_histogram("", "", "name", ""), Err(MetricError::EmptyHelp)));
    assert!(matches!(new_histogram("", "", "9name", ""), Err(MetricError::EmptyHelp)));
    assert!(matches!(new_histogram("", "", "9name", "help"), Err(MetricError::InvalidMetricName)));
    assert!(matches!(new_histogram("", "", "", "help"), Err(MetricError::InvalidMetricName)));
}
