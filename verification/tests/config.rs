use subgraph_debug::config::mock_indexing_config;

#[test]
fn deployment_of_the_harness() {
    let d = mock_indexing_config().deployment;
    assert_eq!(d.id, 42);
    assert_eq!(d.hash, "ipfsMap");
    assert_eq!(d.schema_hash, "s");
    assert_eq!(d.schema_directive, "d");
    assert_eq!(d.node_id, "d");
    assert_eq!(d.start_blocks, vec![1]);
    assert_eq!(d.api_version, (0, 0, 4));
    assert_eq!(d.data_source_path, "build/Gravity");
}

#[test]
fn chain_of_the_harness() {
    let c = mock_indexing_config().chain;
    assert_eq!(c.name, "name");
    assert_eq!(c.ancestor_count, 1);
    assert_eq!(c.reorg_threshold, 1);
    assert!(c.is_ingestible);
    assert_eq!(c.provider, "provider");
    assert_eq!(c.url_hostname, "hostname");
    assert_eq!(c.transport_url, "url");
    assert!(!c.supports_eip_1898 && !c.archive && !c.traces);
}

#[test]
fn template_and_mapping_of_the_harness() {
    let t = mock_indexing_config().template;
    assert_eq!((t.kind.as_str(), t.name.as_str(), t.source_abi.as_str()), ("kind", "name", "abi"));
    let m = t.mapping;
    assert_eq!(m.kind, "kind");
    assert_eq!(m.language, "language");
    assert_eq!(m.entities, vec![String::from("entities")]);
    assert_eq!(m.abi_name, "name");
    assert_eq!(m.block_handler, "handler");
    assert_eq!((m.call_function.as_str(), m.call_handler.as_str()), ("function", "handler"));
    assert_eq!((m.event.as_str(), m.event_handler.as_str()), ("event", "handler"));
    assert_eq!(m.runtime, vec![255u8, 255, 255, 255]);
    assert_eq!(m.link, "link");
}

#[test]
fn filter_and_metric_names_of_the_harness() {
    let c = mock_indexing_config();
    assert!(c.filter.log_contract_events.is_empty());
    assert!(c.filter.log_wildcard_events.is_empty());
    assert!(c.filter.call_functions.is_empty());
    assert!(c.filter.block_contracts.is_empty());
    assert!(!c.filter.trigger_every_block);
    assert_eq!((c.metrics.rpc_name.as_str(), c.metrics.rpc_help.as_str(), c.metrics.rpc_label.as_str()), ("str", "str", "str"));
    assert_eq!((c.metrics.block_stream_gauge_name.as_str(), c.metrics.block_stream_gauge_help.as_str()), ("hello", "f"));
}
