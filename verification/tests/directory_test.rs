use std::collections::HashSet;
use std::time::Duration;

use chitchat::transport::ChannelTransport;
use chitchat::{
    spawn_chitchat, Chitchat, ChitchatConfig, ChitchatHandle, ChitchatId, FailureDetectorConfig,
    ProtocolVersion,
};
use zuklink::error::GossipError;
use zuklink::node::NodeId;
use zuklink::sharding::should_process;
use zuklink::yellowpage::{Yellowpage, DELETION_GRACE_SECS, GOSSIP_INTERVAL_MILLIS};

fn config(node: &str, port: u16, seeds: Vec<String>, gossip_millis: u64) -> ChitchatConfig {
    let address = format!("127.0.0.1:{port}").parse().unwrap();
    ChitchatConfig {
        chitchat_id: ChitchatId::new(node.to_string(), 1, address),
        cluster_id: "zuklink-cluster".to_string(),
        gossip_interval: Duration::from_millis(gossip_millis),
        listen_addr: address,
        seed_nodes: seeds,
        failure_detector_config: FailureDetectorConfig::default(),
        marked_for_deletion_grace_period: Duration::from_secs(DELETION_GRACE_SECS),
        catchup_callback: None,
        extra_liveness_predicate: None,
        protocol_version: ProtocolVersion::V0,
    }
}

/// The gossip state of a node that has not met anyone.
fn alone(node: &str, port: u16) -> Chitchat {
    let (_seeds_tx, seeds_rx) = tokio::sync::watch::channel(HashSet::new());
    Chitchat::with_chitchat_id_and_seeds(
        config(node, port, Vec::new(), GOSSIP_INTERVAL_MILLIS),
        seeds_rx,
        Vec::new(),
    )
}

#[test]
fn a_single_node_sees_itself_at_index_zero() {
    let page = Yellowpage::new("test-node-1".to_string());
    let state = alone("test-node-1", 17001);

    let live_nodes = page.get_live_nodes(&state);
    assert_eq!(live_nodes, vec![NodeId::new("test-node-1")]);
    assert_eq!(page.cluster_size(&state), 1, "Should have 1 node");

    let my_index = page.my_index(&state).expect("Should have an index");
    assert_eq!(my_index, 0, "Single node should be at index 0");

    for filename in ["file1.zuk", "file2.zuk", "file3.zuk"] {
        assert!(should_process(filename, my_index, 1), "Single node should process all files");
    }
}

#[test]
fn the_view_is_the_same_on_every_call() {
    let page = Yellowpage::new("stable".to_string());
    let state = alone("stable", 17002);
    let first = page.get_live_nodes(&state);
    let second = page.get_live_nodes(&state);
    assert_eq!(first, second);
    assert_eq!(page.my_index(&state), page.my_index(&state));
}

#[test]
fn a_directory_for_another_node_has_no_index() {
    let page = Yellowpage::new("somebody-else".to_string());
    let state = alone("test-node-1", 17003);
    assert_eq!(page.my_index(&state), None);
    assert_eq!(page.cluster_size(&state), 1);
}

#[test]
fn metadata_set_here_is_read_here() {
    let page = Yellowpage::new("node-a".to_string());
    let mut state = alone("node-a", 17004);
    let me = NodeId::new("node-a");

    assert_eq!(page.get_metadata(&state, &me, "role"), None);

    assert!(page.can_set_metadata(&state, "role"));
    page.set_metadata(&mut state, "role", "receiver");
    assert_eq!(page.get_metadata(&state, &me, "role"), Some("receiver".to_string()));
    assert_eq!(page.get_metadata(&state, &me, "missing"), None);
    assert_eq!(page.get_metadata(&state, page.node_id(), "role"), Some("receiver".to_string()));
}

#[test]
fn the_last_write_wins() {
    let page = Yellowpage::new("node-a".to_string());
    let mut state = alone("node-a", 17005);
    let me = NodeId::new("node-a");

    assert!(page.try_set_metadata(&mut state, "status", "starting"));
    assert!(page.try_set_metadata(&mut state, "cpu_load", "0.75"));
    assert!(page.try_set_metadata(&mut state, "status", "ready"));
    assert!(page.try_set_metadata(&mut state, "status", "ready"));

    assert_eq!(page.get_metadata(&state, &me, "status"), Some("ready".to_string()));
    assert_eq!(page.get_metadata(&state, &me, "cpu_load"), Some("0.75".to_string()));
    assert_eq!(page.get_live_nodes(&state), vec![me]);
}

#[test]
fn metadata_of_an_unknown_node_is_absent() {
    let page = Yellowpage::new("node-a".to_string());
    let mut state = alone("node-a", 17006);
    assert!(page.try_set_metadata(&mut state, "role", "receiver"));
    assert_eq!(page.get_metadata(&state, &NodeId::new("node-b"), "role"), None);
    assert_eq!(page.get_metadata(&state, &NodeId::new(""), "role"), None);
}

#[test]
fn a_directory_knows_its_node_and_cluster() {
    let page = Yellowpage::new("receiver-1".to_string());
    assert_eq!(page.node_id(), &NodeId::new("receiver-1"));
    assert_eq!(page.cluster_id(), "zuklink-cluster");

    let page = Yellowpage::with_cluster_id("receiver-2".to_string(), "staging".to_string());
    assert_eq!(page.node_id().as_str(), "receiver-2");
    assert_eq!(page.cluster_id(), "staging");
}

#[test]
fn settings_carry_the_fixed_intervals() {
    let page = Yellowpage::with_cluster_id("receiver-1".to_string(), "staging".to_string());
    let settings = page.settings(1_700_000_000, vec!["10.0.0.1:7000".to_string()]).unwrap();
    assert_eq!(settings.node_id, "receiver-1");
    assert_eq!(settings.cluster_id, "staging");
    assert_eq!(settings.generation_id, 1_700_000_000);
    assert_eq!(settings.seed_nodes, vec!["10.0.0.1:7000".to_string()]);
    assert_eq!(settings.gossip_interval_millis, 500);
    assert_eq!(settings.deletion_grace_secs, 60);
}

#[test]
fn a_failed_start_is_a_configuration_error() {
    let runtime = tokio::runtime::Builder::new_current_thread().enable_all().build().unwrap();
    let failure = runtime.block_on(async {
        let transport = ChannelTransport::with_mtu(65_507);
        let first = spawn_chitchat(config("n1", 18001, Vec::new(), 50), Vec::new(), &transport)
            .await
            .unwrap();
        // the address is taken
        let second =
            spawn_chitchat(config("n2", 18001, Vec::new(), 50), Vec::new(), &transport).await;
        let cause = second.err().expect("the address is taken").to_string();
        first.shutdown().await.unwrap();
        GossipError::spawn_failed(&cause)
    });
    assert!(matches!(&failure, GossipError::ConfigError(detail)
        if detail.starts_with("Failed to spawn chitchat: ")));
}

/// Waits until `handle` sees `count` live nodes.
async fn wait_for(handle: &ChitchatHandle, page: &Yellowpage, count: usize) {
    for _ in 0..300 {
        if handle.with_chitchat(|state| page.cluster_size(state)).await == count {
            return;
        }
        tokio::time::sleep(Duration::from_millis(25)).await;
    }
    panic!("the cluster did not reach {count} live nodes");
}

#[test]
fn converged_nodes_agree_on_the_view_and_split_the_keys() {
    let runtime = tokio::runtime::Builder::new_multi_thread()
        .worker_threads(2)
        .enable_all()
        .build()
        .unwrap();
    runtime.block_on(async {
        let transport = ChannelTransport::with_mtu(65_507);
        let names = ["node-2", "node-3", "node-1"];
        let seed = vec!["127.0.0.1:19001".to_string()];
        let mut nodes: Vec<(Yellowpage, ChitchatHandle)> = Vec::new();
        for (offset, name) in names.iter().enumerate() {
            let seeds = if offset == 0 { Vec::new() } else { seed.clone() };
            let handle =
                spawn_chitchat(config(name, 19001 + offset as u16, seeds, 20), Vec::new(), &transport)
                    .await
                    .expect("Failed to create node");
            nodes.push((Yellowpage::new(name.to_string()), handle));
        }
        for (page, handle) in &nodes {
            wait_for(handle, page, 3).await;
        }

        let expected = vec![NodeId::new("node-1"), NodeId::new("node-2"), NodeId::new("node-3")];
        let mut indices = Vec::new();
        for (page, handle) in &nodes {
            let view = handle.with_chitchat(|state| page.get_live_nodes(state)).await;
            assert_eq!(view, expected, "All nodes should agree on the cluster view");
            let index = handle.with_chitchat(|state| page.my_index(state)).await;
            indices.push(index.expect("Should have index"));
        }
        assert_eq!(indices, vec![1, 2, 0]);

        for i in 1..=50 {
            let filename = format!("test-file-{}.zuk", i);
            let claiming =
                indices.iter().filter(|index| should_process(&filename, **index, 3)).count();
            assert_eq!(claiming, 1, "File {} should be assigned to exactly 1 node", filename);
        }

        // what one node writes, the others come to read
        let (writer, writer_handle) = &nodes[2];
        let written = writer_handle
            .with_chitchat(|state| writer.try_set_metadata(state, "role", "receiver"))
            .await;
        assert!(written);
        let (reader, reader_handle) = &nodes[0];
        let mut seen = None;
        for _ in 0..300 {
            seen = reader_handle
                .with_chitchat(|state| reader.get_metadata(state, &NodeId::new("node-1"), "role"))
                .await;
            if seen.is_some() {
                break;
            }
            tokio::time::sleep(Duration::from_millis(25)).await;
        }
        assert_eq!(seen, Some("receiver".to_string()));
        let absent = reader_handle
            .with_chitchat(|state| reader.get_metadata(state, &NodeId::new("node-1"), "missing"))
            .await;
        assert_eq!(absent, None);

        for (_, handle) in nodes {
            handle.shutdown().await.unwrap();
        }
    });
}

#[test]
fn a_malformed_seed_is_a_configuration_error() {
    let page = Yellowpage::new("receiver-1".to_string());
    let seeds = vec!["10.0.0.1:7000".to_string(), "no-port".to_string(), ":7000".to_string()];
    let error = page.settings(1, seeds).unwrap_err();
    assert!(matches!(&error, GossipError::ConfigError(detail)
        if detail == "Malformed seed address: no-port"));
    assert_eq!(error.to_string(), "Configuration error: Malformed seed address: no-port");

    assert!(page.settings(1, Vec::new()).is_ok());
    assert!(page.settings(1, vec!["receiver-1:7000".to_string(), "[::1]:7001".to_string()]).is_ok());
}

#[test]
fn a_record_that_is_behind_its_entry_takes_no_write() {
    let page = Yellowpage::new("node-a".to_string());
    let mut state = alone("node-a", 17007);
    let me = NodeId::new("node-a");

    assert!(page.try_set_metadata(&mut state, "k", "a"));
    assert!(page.try_set_metadata(&mut state, "k", "b"));
    state.self_node_state().set_max_version(0);

    assert!(!page.can_set_metadata(&state, "k"));
    assert!(!page.try_set_metadata(&mut state, "k", "c"));
    assert_eq!(page.get_metadata(&state, &me, "k"), Some("b".to_string()));

    // a key without an entry is not ahead of the record
    assert!(page.can_set_metadata(&state, "other"));
    assert!(page.try_set_metadata(&mut state, "other", "x"));
    assert_eq!(page.get_metadata(&state, &me, "other"), Some("x".to_string()));
    assert!(!page.can_set_metadata(&state, "k"));
}

#[test]
fn a_record_at_the_last_version_takes_no_write() {
    let page = Yellowpage::new("node-a".to_string());
    let mut state = alone("node-a", 17008);
    let me = NodeId::new("node-a");

    assert!(page.try_set_metadata(&mut state, "role", "receiver"));
    state.self_node_state().set_max_version(u64::MAX);

    assert!(!page.can_set_metadata(&state, "role"));
    assert!(!page.can_set_metadata(&state, "fresh"));
    assert!(!page.try_set_metadata(&mut state, "fresh", "x"));
    assert!(!page.try_set_metadata(&mut state, "role", "sender"));
    assert_eq!(page.get_metadata(&state, &me, "fresh"), None);
    assert_eq!(page.get_metadata(&state, &me, "role"), Some("receiver".to_string()));

    state.self_node_state().set_max_version(u64::MAX - 1);
    assert!(page.try_set_metadata(&mut state, "role", "sender"));
    assert_eq!(page.get_metadata(&state, &me, "role"), Some("sender".to_string()));
    assert!(!page.can_set_metadata(&state, "role"));
}

#[test]
fn a_key_that_starts_with_a_wide_character_takes_no_write() {
    let page = Yellowpage::new("node-a".to_string());
    let mut state = alone("node-a", 17009);
    let me = NodeId::new("node-a");

    for key in ["\u{e9}tat", "\u{65e5}\u{672c}", "\u{1f600}"] {
        assert!(!page.can_set_metadata(&state, key), "{key:?}");
        assert!(!page.try_set_metadata(&mut state, key, "x"), "{key:?}");
        assert_eq!(page.get_metadata(&state, &me, key), None);
    }

    // a wide character further back does no harm, and neither does no key at all
    for key in ["r\u{f4}le", "a\u{1f600}", "", "\u{7f}"] {
        assert!(page.can_set_metadata(&state, key), "{key:?}");
        assert!(page.try_set_metadata(&mut state, key, "x"), "{key:?}");
        assert_eq!(page.get_metadata(&state, &me, key), Some("x".to_string()));
    }
}
