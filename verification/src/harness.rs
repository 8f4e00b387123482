//! The order of the harness's fallible steps, and what it comes to: the
//! first step that fails makes the harness panic; when every step succeeds
//! it prints its crab line.
//!
//! The steps are those whose `Result` the harness unwraps or expects. A run
//! can also end in panics that no step here stands for: loading the mock
//! data source from its build directory, and any call that the indexer
//! makes into one of the harness's mock stores, listeners, caches,
//! registries or resolvers, all of which panic.

use vstd::prelude::*;

verus! {

/// The fallible steps of the harness, in the order in which it takes them.
#[derive(Clone, Copy, Debug, PartialEq, Eq, Structural)]
pub enum HarnessStage {
    /// Parsing the deployment hash `ipfsMap`.
    DeploymentHash,
    /// Building the gauge vector and the counter vector of the RPC metrics.
    RpcMetrics,
    /// Opening the HTTP transport of the Ethereum adapter.
    Transport,
    /// Unifying the mapping API versions. The harness does this three times
    /// on the same single version, first right after opening the transport;
    /// the later two give the same result, so only the first can fail.
    ApiVersion,
    /// Parsing the node id.
    NodeId,
    /// Parsing the schema hash.
    SchemaHash,
    /// Resolving the subgraph manifest.
    ResolveManifest,
    /// Building the subgraph instance from the manifest.
    BuildInstance,
    /// Building the histogram of the subgraph instance metrics.
    BuildHistogram,
    /// Building the gauges of the block stream metrics.
    BlockStreamGauges,
    /// Processing the block.
    ProcessBlock,
}

/// How a run of the harness ends.
#[derive(Clone, Copy, Debug, PartialEq, Eq, Structural)]
pub enum HarnessOutcome {
    /// The harness panics at this step.
    Panic(HarnessStage),
    /// Every step succeeded and the harness prints its crab line.
    PrintCrab,
}

/// The message that the harness's `expect` gives when step `s` fails, or
/// none where the step is a plain `unwrap`.
pub open spec fn spec_expect_message(s: HarnessStage) -> Option<Seq<char>> {
    match s {
        HarnessStage::DeploymentHash => Some("Could not create DeploymentHash."@),
        HarnessStage::BuildInstance => Some("Could not create instance from manifest."@),
        _ => None,
    }
}

/// The message that the harness panics with when step `stage` fails, where
/// that step is an `expect`; `None` where it is a plain `unwrap`, which
/// panics with the error alone.
pub fn expect_message(stage: HarnessStage) -> (m: Option<&'static str>)
    ensures
        match m {
            Some(t) => spec_expect_message(stage) == Some(t@),
            None => spec_expect_message(stage) is None,
        },
{
    match stage {
        HarnessStage::DeploymentHash => Some("Could not create DeploymentHash."),
        HarnessStage::BuildInstance => Some("Could not create instance from manifest."),
        _ => None,
    }
}

/// What the harness does after a step.
#[derive(Clone, Copy, Debug, PartialEq, Eq, Structural)]
pub enum HarnessStep {
    /// Go on with this step.
    Next(HarnessStage),
    /// Stop with this outcome.
    Done(HarnessOutcome),
}

/// The position of a step in the harness's order.
pub open spec fn stage_index(s: HarnessStage) -> nat {
    match s {
        HarnessStage::DeploymentHash => 0,
        HarnessStage::RpcMetrics => 1,
        HarnessStage::Transport => 2,
        HarnessStage::ApiVersion => 3,
        HarnessStage::NodeId => 4,
        HarnessStage::SchemaHash => 5,
        HarnessStage::ResolveManifest => 6,
        HarnessStage::BuildInstance => 7,
        HarnessStage::BuildHistogram => 8,
        HarnessStage::BlockStreamGauges => 9,
        HarnessStage::ProcessBlock => 10,
    }
}

/// The step that follows `s`, if any.
pub open spec fn next_stage(s: HarnessStage) -> Option<HarnessStage> {
    match s {
        HarnessStage::DeploymentHash => Some(HarnessStage::RpcMetrics),
        HarnessStage::RpcMetrics => Some(HarnessStage::Transport),
        HarnessStage::Transport => Some(HarnessStage::ApiVersion),
        HarnessStage::ApiVersion => Some(HarnessStage::NodeId),
        HarnessStage::NodeId => Some(HarnessStage::SchemaHash),
        HarnessStage::SchemaHash => Some(HarnessStage::ResolveManifest),
        HarnessStage::ResolveManifest => Some(HarnessStage::BuildInstance),
        HarnessStage::BuildInstance => Some(HarnessStage::BuildHistogram),
        HarnessStage::BuildHistogram => Some(HarnessStage::BlockStreamGauges),
        HarnessStage::BlockStreamGauges => Some(HarnessStage::ProcessBlock),
        HarnessStage::ProcessBlock => None,
    }
}

/// After step `s`: a failure makes the harness panic at `s`; a success goes
/// on with the next step, or, after the last one, prints the crab line.
pub open spec fn spec_after_stage(s: HarnessStage, ok: bool) -> HarnessStep {
    if !ok {
        HarnessStep::Done(HarnessOutcome::Panic(s))
    } else {
        match next_stage(s) {
            Some(n) => HarnessStep::Next(n),
            None => HarnessStep::Done(HarnessOutcome::PrintCrab),
        }
    }
}

/// Decides what the harness does after step `stage`, which succeeded when
/// `ok` holds.
pub fn after_stage(stage: HarnessStage, ok: bool) -> (step: HarnessStep)
    ensures
        step == spec_after_stage(stage, ok),
{
    if !ok {
        return HarnessStep::Done(HarnessOutcome::Panic(stage));
    }
    match stage {
        HarnessStage::DeploymentHash => HarnessStep::Next(HarnessStage::RpcMetrics),
        HarnessStage::RpcMetrics => HarnessStep::Next(HarnessStage::Transport),
        HarnessStage::Transport => HarnessStep::Next(HarnessStage::ApiVersion),
        HarnessStage::ApiVersion => HarnessStep::Next(HarnessStage::NodeId),
        HarnessStage::NodeId => HarnessStep::Next(HarnessStage::SchemaHash),
        HarnessStage::SchemaHash => HarnessStep::Next(HarnessStage::ResolveManifest),
        HarnessStage::ResolveManifest => HarnessStep::Next(HarnessStage::BuildInstance),
        HarnessStage::BuildInstance => HarnessStep::Next(HarnessStage::BuildHistogram),
        HarnessStage::BuildHistogram => HarnessStep::Next(HarnessStage::BlockStreamGauges),
        HarnessStage::BlockStreamGauges => HarnessStep::Next(HarnessStage::ProcessBlock),
        HarnessStage::ProcessBlock => HarnessStep::Done(HarnessOutcome::PrintCrab),
    }
}

/// Whether each step of one run succeeds.
pub struct StageResults {
    pub deployment_hash: bool,
    pub rpc_metrics: bool,
    pub transport: bool,
    pub api_version: bool,
    pub node_id: bool,
    pub schema_hash: bool,
    pub resolve_manifest: bool,
    pub build_instance: bool,
    pub build_histogram: bool,
    pub block_stream_gauges: bool,
    pub process_block: bool,
}

/// Whether step `s` succeeds in `r`.
pub open spec fn stage_ok(r: StageResults, s: HarnessStage) -> bool {
    match s {
        HarnessStage::DeploymentHash => r.deployment_hash,
        HarnessStage::RpcMetrics => r.rpc_metrics,
        HarnessStage::Transport => r.transport,
        HarnessStage::ApiVersion => r.api_version,
        HarnessStage::NodeId => r.node_id,
        HarnessStage::SchemaHash => r.schema_hash,
        HarnessStage::ResolveManifest => r.resolve_manifest,
        HarnessStage::BuildInstance => r.build_instance,
        HarnessStage::BuildHistogram => r.build_histogram,
        HarnessStage::BlockStreamGauges => r.block_stream_gauges,
        HarnessStage::ProcessBlock => r.process_block,
    }
}

/// How a run ends: it panics at the first step that fails, and prints the
/// crab line when none does.
pub open spec fn spec_harness_outcome(r: StageResults) -> HarnessOutcome {
    if !r.deployment_hash {
        HarnessOutcome::Panic(HarnessStage::DeploymentHash)
    } else if !r.rpc_metrics {
        HarnessOutcome::Panic(HarnessStage::RpcMetrics)
    } else if !r.transport {
        HarnessOutcome::Panic(HarnessStage::Transport)
    } else if !r.api_version {
        HarnessOutcome::Panic(HarnessStage::ApiVersion)
    } else if !r.node_id {
        HarnessOutcome::Panic(HarnessStage::NodeId)
    } else if !r.schema_hash {
        HarnessOutcome::Panic(HarnessStage::SchemaHash)
    } else if !r.resolve_manifest {
        HarnessOutcome::Panic(HarnessStage::ResolveManifest)
    } else if !r.build_instance {
        HarnessOutcome::Panic(HarnessStage::BuildInstance)
    } else if !r.build_histogram {
        HarnessOutcome::Panic(HarnessStage::BuildHistogram)
    } else if !r.block_stream_gauges {
        HarnessOutcome::Panic(HarnessStage::BlockStreamGauges)
    } else if !r.process_block {
        HarnessOutcome::Panic(HarnessStage::ProcessBlock)
    } else {
        HarnessOutcome::PrintCrab
    }
}

/// How a run ends when it takes the steps from `s` on, one by one, deciding
/// after each by [`spec_after_stage`].
pub open spec fn run_from(r: StageResults, s: HarnessStage) -> HarnessOutcome
    decreases 11 - stage_index(s),
{
    match spec_after_stage(s, stage_ok(r, s)) {
        HarnessStep::Done(o) => o,
        HarnessStep::Next(n) => run_from(r, n),
    }
}

/// Taking the steps one by one from the first, deciding after each by
/// [`after_stage`], ends exactly as [`spec_harness_outcome`] says: in a
/// panic at the first step that fails, or in the crab line.
pub proof fn lemma_run_is_first_failure(r: StageResults)
    ensures
        run_from(r, HarnessStage::DeploymentHash) == spec_harness_outcome(r),
{
    reveal_with_fuel(run_from, 12);
}

/// The result of step `stage` in `r`.
fn stage_result(r: &StageResults, stage: HarnessStage) -> (ok: bool)
    ensures
        ok == stage_ok(*r, stage),
{
    match stage {
        HarnessStage::DeploymentHash => r.deployment_hash,
        HarnessStage::RpcMetrics => r.rpc_metrics,
        HarnessStage::Transport => r.transport,
        HarnessStage::ApiVersion => r.api_version,
        HarnessStage::NodeId => r.node_id,
        HarnessStage::SchemaHash => r.schema_hash,
        HarnessStage::ResolveManifest => r.resolve_manifest,
        HarnessStage::BuildInstance => r.build_instance,
        HarnessStage::BuildHistogram => r.build_histogram,
        HarnessStage::BlockStreamGauges => r.block_stream_gauges,
        HarnessStage::ProcessBlock => r.process_block,
    }
}

/// Runs the steps with the results `r`, deciding after each by
/// [`after_stage`], and says how the run ends.
pub fn harness_outcome(r: &StageResults) -> (o: HarnessOutcome)
    ensures
        o == spec_harness_outcome(*r),
{
    proof {
        lemma_run_is_first_failure(*r);
    }
    let mut stage = HarnessStage::DeploymentHash;
    loop
        invariant
            run_from(*r, stage) == spec_harness_outcome(*r),
        decreases 11 - stage_index(stage),
    {
        let step = after_stage(stage, stage_result(r, stage));
        match step {
            HarnessStep::Done(o) => {
                return o;
            },
            HarnessStep::Next(n) => {
                assert(stage_index(n) == stage_index(stage) + 1);
                stage = n;
            },
        }
    }
}

/// A run in which the histogram cannot be built never prints the crab line:
/// it panics at the histogram or at an earlier step. The harness's
/// histogram is always refused (see
/// [`crate::metrics::subgraph_instance_histogram`]), so the harness never
/// prints it.
pub proof fn lemma_no_crab_without_histogram(r: StageResults)
    requires
        !r.build_histogram,
    ensures
        spec_harness_outcome(r) != HarnessOutcome::PrintCrab,
        spec_harness_outcome(r) matches HarnessOutcome::Panic(s) && stage_index(s) <= stage_index(HarnessStage::BuildHistogram),
{
}

} // verus!
