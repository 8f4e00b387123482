//! The configuration that the harness hands to the indexer: the deployment,
//! the chain, the data source template with its mapping, the trigger filter
//! and the names of the metrics it builds.

use vstd::prelude::*;

verus! {

/// The subgraph deployment that the block is indexed for.
pub struct MockDeployment {
    /// Identifier of the deployment in the store.
    pub id: i32,
    /// Hash of the deployment, also the id of the subgraph.
    pub hash: String,
    /// Hash under which the schema is declared.
    pub schema_hash: String,
    /// Name of the single directive that the schema declares.
    pub schema_directive: String,
    /// The node that indexes the deployment.
    pub node_id: String,
    /// Block numbers at which indexing starts.
    pub start_blocks: Vec<i32>,
    /// Major, minor and patch of the mapping API version.
    pub api_version: (u64, u64, u64),
    /// Path of the build that the mock data source is loaded from.
    pub data_source_path: String,
}

/// The Ethereum chain and the adapter that serves it.
pub struct MockChain {
    pub name: String,
    pub ancestor_count: i32,
    pub reorg_threshold: i32,
    pub is_ingestible: bool,
    pub provider: String,
    pub url_hostname: String,
    /// The URL that the HTTP transport of the adapter is opened on.
    pub transport_url: String,
    pub supports_eip_1898: bool,
    pub archive: bool,
    pub traces: bool,
}

/// The mapping of the data source template.
pub struct MockMapping {
    pub kind: String,
    pub language: String,
    pub entities: Vec<String>,
    /// Name of the single ABI, whose contract has no constructor, functions
    /// or events and neither receives nor falls back.
    pub abi_name: String,
    /// Handler of the single block handler, which has no filter.
    pub block_handler: String,
    /// Function and handler of the single call handler.
    pub call_function: String,
    pub call_handler: String,
    /// Event and handler of the single event handler, which has no topic.
    pub event: String,
    pub event_handler: String,
    /// The wasm runtime of the mapping.
    pub runtime: Vec<u8>,
    pub link: String,
}

/// The data source template, which has no network.
pub struct MockTemplate {
    pub kind: String,
    pub name: String,
    pub source_abi: String,
    pub mapping: MockMapping,
}

/// The names of the metrics that the harness builds.
pub struct MockMetricNames {
    /// Name, help and single label of the request duration gauge vector and
    /// of the error counter vector of the RPC metrics.
    pub rpc_name: String,
    pub rpc_help: String,
    pub rpc_label: String,
    /// Name and help of each block stream gauge.
    pub block_stream_gauge_name: String,
    pub block_stream_gauge_help: String,
}

/// The filter that decides which triggers the indexer looks for.
pub struct MockTriggerFilter {
    /// Log filter: the (contract address, event signature) pairs it matches.
    pub log_contract_events: Vec<([u8; 20], [u8; 32])>,
    /// Log filter: event signatures matched on any contract.
    pub log_wildcard_events: Vec<[u8; 32]>,
    /// Call filter: contract address, start block and function selectors.
    pub call_functions: Vec<([u8; 20], i32, Vec<[u8; 4]>)>,
    /// Block filter: (start block, contract address) pairs.
    pub block_contracts: Vec<(i32, [u8; 20])>,
    /// Block filter: whether it triggers on every block.
    pub trigger_every_block: bool,
}

/// Everything the harness configures.
pub struct MockIndexingConfig {
    pub deployment: MockDeployment,
    pub chain: MockChain,
    pub template: MockTemplate,
    pub filter: MockTriggerFilter,
    pub metrics: MockMetricNames,
}

pub open spec fn is_mock_deployment(d: MockDeployment) -> bool {
    &&& d.id == 42
    &&& d.hash@ == "ipfsMap"@
    &&& d.schema_hash@ == "s"@
    &&& d.schema_directive@ == "d"@
    &&& d.node_id@ == "d"@
    &&& d.start_blocks@ == seq![1i32]
    &&& d.api_version == (0u64, 0u64, 4u64)
    &&& d.data_source_path@ == "build/Gravity"@
}

pub open spec fn is_mock_chain(c: MockChain) -> bool {
    &&& c.name@ == "name"@
    &&& c.ancestor_count == 1
    &&& c.reorg_threshold == 1
    &&& c.is_ingestible
    &&& c.provider@ == "provider"@
    &&& c.url_hostname@ == "hostname"@
    &&& c.transport_url@ == "url"@
    &&& !c.supports_eip_1898
    &&& !c.archive
    &&& !c.traces
}

pub open spec fn is_mock_mapping(m: MockMapping) -> bool {
    &&& m.kind@ == "kind"@
    &&& m.language@ == "language"@
    &&& m.entities@.len() == 1
    &&& m.entities@[0]@ == "entities"@
    &&& m.abi_name@ == "name"@
    &&& m.block_handler@ == "handler"@
    &&& m.call_function@ == "function"@
    &&& m.call_handler@ == "handler"@
    &&& m.event@ == "event"@
    &&& m.event_handler@ == "handler"@
    &&& m.runtime@ == seq![255u8, 255u8, 255u8, 255u8]
    &&& m.link@ == "link"@
}

pub open spec fn is_mock_template(t: MockTemplate) -> bool {
    &&& t.kind@ == "kind"@
    &&& t.name@ == "name"@
    &&& t.source_abi@ == "abi"@
    &&& is_mock_mapping(t.mapping)
}

pub open spec fn is_mock_metric_names(n: MockMetricNames) -> bool {
    &&& n.rpc_name@ == "str"@
    &&& n.rpc_help@ == "str"@
    &&& n.rpc_label@ == "str"@
    &&& n.block_stream_gauge_name@ == "hello"@
    &&& n.block_stream_gauge_help@ == "f"@
}

/// The empty filter: nothing in the log, call or block filter, and no
/// trigger on every block.
pub open spec fn is_empty_filter(f: MockTriggerFilter) -> bool {
    &&& f.log_contract_events@.len() == 0
    &&& f.log_wildcard_events@.len() == 0
    &&& f.call_functions@.len() == 0
    &&& f.block_contracts@.len() == 0
    &&& !f.trigger_every_block
}

/// The configuration that [`mock_indexing_config`] builds.
pub open spec fn is_mock_indexing_config(c: MockIndexingConfig) -> bool {
    &&& is_mock_deployment(c.deployment)
    &&& is_mock_chain(c.chain)
    &&& is_mock_template(c.template)
    &&& is_empty_filter(c.filter)
    &&& is_mock_metric_names(c.metrics)
}

fn mock_deployment() -> (d: MockDeployment)
    ensures
        is_mock_deployment(d),
{
    let mut start_blocks: Vec<i32> = Vec::new();
    start_blocks.push(1);
    MockDeployment {
        id: 42,
        hash: String::from_str("ipfsMap"),
        schema_hash: String::from_str("s"),
        schema_directive: String::from_str("d"),
        node_id: String::from_str("d"),
        start_blocks,
        api_version: (0, 0, 4),
        data_source_path: String::from_str("build/Gravity"),
    }
}

fn mock_chain() -> (c: MockChain)
    ensures
        is_mock_chain(c),
{
    MockChain {
        name: String::from_str("name"),
        ancestor_count: 1,
        reorg_threshold: 1,
        is_ingestible: true,
        provider: String::from_str("provider"),
        url_hostname: String::from_str("hostname"),
        transport_url: String::from_str("url"),
        supports_eip_1898: false,
        archive: false,
        traces: false,
    }
}

fn mock_template() -> (t: MockTemplate)
    ensures
        is_mock_template(t),
{
    let mut entities: Vec<String> = Vec::new();
    entities.push(String::from_str("entities"));
    let mut runtime: Vec<u8> = Vec::new();
    runtime.push(255);
    runtime.push(255);
    runtime.push(255);
    runtime.push(255);
    assert(runtime@ =~= seq![255u8, 255u8, 255u8, 255u8]);
    MockTemplate {
        kind: String::from_str("kind"),
        name: String::from_str("name"),
        source_abi: String::from_str("abi"),
        mapping: MockMapping {
            kind: String::from_str("kind"),
            language: String::from_str("language"),
            entities,
            abi_name: String::from_str("name"),
            block_handler: String::from_str("handler"),
            call_function: String::from_str("function"),
            call_handler: String::from_str("handler"),
            event: String::from_str("event"),
            event_handler: String::from_str("handler"),
            runtime,
            link: String::from_str("link"),
        },
    }
}

/// Builds the configuration of the harness.
pub fn mock_indexing_config() -> (c: MockIndexingConfig)
    ensures
        is_mock_indexing_config(c),
{
    MockIndexingConfig {
        deployment: mock_deployment(),
        chain: mock_chain(),
        template: mock_template(),
        filter: MockTriggerFilter {
            log_contract_events: Vec::new(),
            log_wildcard_events: Vec::new(),
            call_functions: Vec::new(),
            block_contracts: Vec::new(),
            trigger_every_block: false,
        },
        metrics: MockMetricNames {
            rpc_name: String::from_str("str"),
            rpc_help: String::from_str("str"),
            rpc_label: String::from_str("str"),
            block_stream_gauge_name: String::from_str("hello"),
            block_stream_gauge_help: String::from_str("f"),
        },
    }
}

} // verus!
