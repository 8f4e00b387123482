use subgraph_debug::harness::{after_stage, expect_message, harness_outcome, HarnessOutcome, HarnessStage, HarnessStep, StageResults};

fn all_ok() -> StageResults {
    StageResults {
        deployment_hash: true,
        rpc_metrics: true,
        transport: true,
        api_version: true,
        node_id: true,
        schema_hash: true,
        resolve_manifest: true,
        build_instance: true,
        build_histogram: true,
        block_stream_gauges: true,
        process_block: true,
    }
}

#[test]
fn every_step_succeeding_prints_the_crab() {
    assert_eq!(harness_outcome(&all_ok()), HarnessOutcome::PrintCrab);
}

#[test]
fn first_failure_decides_the_panic() {
    let mut r = all_ok();
    r.transport = false;
    r.build_histogram = false;
    assert_eq!(harness_outcome(&r), HarnessOutcome::Panic(HarnessStage::Transport));
}

#[test]
fn histogram_failure_panics_before_processing() {
    let mut r = all_ok();
    r.build_histogram = false;
    r.process_block = false;
    assert_eq!(harness_outcome(&r), HarnessOutcome::Panic(HarnessStage::BuildHistogram));
}

#[test]
fn last_step_failing_panics_there() {
    let mut r = all_ok();
    r.process_block = false;
    assert_eq!(harness_outcome(&r), HarnessOutcome::Panic(HarnessStage::ProcessBlock));
}

#[test]
fn after_stage_goes_on_stops_or_prints() {
    assert_eq!(after_stage(HarnessStage::DeploymentHash, true), HarnessStep::Next(HarnessStage::RpcMetrics));
    assert_eq!(after_stage(HarnessStage::ResolveManifest, true), HarnessStep::Next(HarnessStage::BuildInstance));
    assert_eq!(after_stage(HarnessStage::NodeId, false), HarnessStep::Done(HarnessOutcome::Panic(HarnessStage::NodeId)));
    assert_eq!(after_stage(HarnessStage::ProcessBlock, true), HarnessStep::Done(HarnessOutcome::PrintCrab));
}

#[test]
fn expect_messages_of_the_harness() {
    assert_eq!(expect_message(HarnessStage::DeploymentHash), Some("Could not create DeploymentHash."));
    assert_eq!(expect_message(HarnessStage::BuildInstance), Some("Could not create instance from manifest."));
    assert_eq!(expect_message(HarnessStage::Transport), None);
    assert_eq!(expect_message(HarnessStage::ProcessBlock), None);
}
