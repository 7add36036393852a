//! Which triggers are found in a block, and in what order.

use graph_chain_cosmos::adapter::TriggerFilter;
use graph_chain_cosmos::block::{BlockHash, BlockPtr};
use graph_chain_cosmos::codec::{
    Any, Block, Event, EventAttribute, Header, HeaderOnlyBlock, ResponseBeginBlock,
    ResponseDeliverTx, ResponseEndBlock, Tx, TxBody, TxResult,
};
use graph_chain_cosmos::error::Error;
use graph_chain_cosmos::trigger::{CosmosTrigger, EventOrigin};
use graph_chain_cosmos::triggers::{build_tx_context, filter_event_trigger, TriggersAdapter};
use std::sync::Arc;

fn empty_block() -> Block {
    block_with_event_types(vec![], vec![], vec![])
}

fn block_with_event_types(
    begin_event_types: Vec<&str>,
    tx_event_types: Vec<&str>,
    end_event_types: Vec<&str>,
) -> Block {
    Block {
        header: Some(Header {
            version: None,
            chain_id: "test".to_string(),
            height: 1,
            time: None,
            last_block_id: None,
            last_commit_hash: vec![],
            data_hash: vec![],
            validators_hash: vec![],
            next_validators_hash: vec![],
            consensus_hash: vec![],
            app_hash: vec![],
            last_results_hash: vec![],
            evidence_hash: vec![],
            proposer_address: vec![],
            hash: vec![],
        }),
        evidence: None,
        last_commit: None,
        result_begin_block: Some(ResponseBeginBlock {
            events: begin_event_types.into_iter().map(event_with_type).collect(),
        }),
        result_end_block: Some(ResponseEndBlock {
            validator_updates: vec![],
            consensus_param_updates: None,
            events: end_event_types.into_iter().map(event_with_type).collect(),
        }),
        transactions: tx_event_types.into_iter().map(tx_with_event_type).collect(),
        validator_updates: vec![],
    }
}

fn event_with_type(event_type: &str) -> Event {
    Event {
        event_type: event_type.to_string(),
        attributes: vec![],
    }
}

fn tx_with_event_type(event_type: &str) -> TxResult {
    TxResult {
        height: 1,
        index: 1,
        tx: None,
        result: Some(ResponseDeliverTx {
            code: 1,
            data: vec![],
            log: "".to_string(),
            info: "".to_string(),
            gas_wanted: 1,
            gas_used: 1,
            codespace: "".to_string(),
            events: vec![event_with_type(event_type)],
        }),
        hash: vec![],
    }
}

fn filter_for(trigger_every_block: bool, event_types: &[&str]) -> TriggerFilter {
    TriggerFilter::new(
        trigger_every_block,
        event_types.iter().map(|t| t.to_string()).collect(),
    )
}

fn message(type_url: &str) -> Any {
    Any {
        type_url: type_url.to_string(),
        value: vec![1, 2, 3],
    }
}

fn tx_with_messages(index: u32, messages: Vec<Any>) -> TxResult {
    TxResult {
        height: 1,
        index,
        tx: Some(Tx {
            body: Some(TxBody {
                messages,
                memo: "memo".to_string(),
                timeout_height: 0,
                extension_options: vec![],
                non_critical_extension_options: vec![],
            }),
            auth_info: None,
            signatures: vec![],
        }),
        result: Some(ResponseDeliverTx {
            code: 5,
            data: vec![],
            log: "".to_string(),
            info: "".to_string(),
            gas_wanted: 20,
            gas_used: 10,
            codespace: "".to_string(),
            events: vec![],
        }),
        hash: vec![index as u8, 7],
    }
}

#[test]
fn test_trigger_filters() {
    let adapter = TriggersAdapter {};

    let block_with_events = block_with_event_types(
        vec!["begin_event_1", "begin_event_2", "begin_event_3"],
        vec!["tx_event_1", "tx_event_2", "tx_event_3"],
        vec!["end_event_1", "end_event_2", "end_event_3"],
    );

    let header_only_block = HeaderOnlyBlock::from(&block_with_events);

    let cases = [
        (empty_block(), filter_for(false, &[]), vec![]),
        (
            empty_block(),
            filter_for(true, &[]),
            vec![CosmosTrigger::Block(Arc::new(empty_block()))],
        ),
        (
            empty_block(),
            filter_for(false, &["event_1", "event_2", "event_3"]),
            vec![],
        ),
        (
            block_with_events.clone(),
            filter_for(false, &["begin_event_3", "tx_event_3", "end_event_3"]),
            vec![
                CosmosTrigger::with_event(
                    event_with_type("begin_event_3"),
                    header_only_block.clone(),
                    None,
                    EventOrigin::BeginBlock,
                ),
                CosmosTrigger::with_event(
                    event_with_type("tx_event_3"),
                    header_only_block.clone(),
                    Some(build_tx_context(&block_with_events.transactions[2])),
                    EventOrigin::DeliverTx,
                ),
                CosmosTrigger::with_event(
                    event_with_type("end_event_3"),
                    header_only_block.clone(),
                    None,
                    EventOrigin::EndBlock,
                ),
                CosmosTrigger::with_transaction(
                    tx_with_event_type("tx_event_1"),
                    header_only_block.clone(),
                ),
                CosmosTrigger::with_transaction(
                    tx_with_event_type("tx_event_2"),
                    header_only_block.clone(),
                ),
                CosmosTrigger::with_transaction(
                    tx_with_event_type("tx_event_3"),
                    header_only_block.clone(),
                ),
            ],
        ),
        (
            block_with_events.clone(),
            filter_for(true, &["begin_event_3", "tx_event_2", "end_event_1"]),
            vec![
                CosmosTrigger::Block(Arc::new(block_with_events.clone())),
                CosmosTrigger::with_event(
                    event_with_type("begin_event_3"),
                    header_only_block.clone(),
                    None,
                    EventOrigin::BeginBlock,
                ),
                CosmosTrigger::with_event(
                    event_with_type("tx_event_2"),
                    header_only_block.clone(),
                    Some(build_tx_context(&block_with_events.transactions[1])),
                    EventOrigin::DeliverTx,
                ),
                CosmosTrigger::with_event(
                    event_with_type("end_event_1"),
                    header_only_block.clone(),
                    None,
                    EventOrigin::EndBlock,
                ),
                CosmosTrigger::with_transaction(
                    tx_with_event_type("tx_event_1"),
                    header_only_block.clone(),
                ),
                CosmosTrigger::with_transaction(
                    tx_with_event_type("tx_event_2"),
                    header_only_block.clone(),
                ),
                CosmosTrigger::with_transaction(
                    tx_with_event_type("tx_event_3"),
                    header_only_block.clone(),
                ),
            ],
        ),
    ];

    for (block, trigger_filter, expected_triggers) in cases {
        let triggers = adapter
            .triggers_in_block(block, &trigger_filter)
            .expect("failed to get triggers in block");

        assert_eq!(
            triggers.trigger_data.len(),
            expected_triggers.len(),
            "Expected trigger list to contain exactly {:?}, but it didn't: {:?}",
            expected_triggers,
            triggers.trigger_data
        );

        // they may not be in the same order
        for trigger in expected_triggers {
            assert!(
                triggers.trigger_data.contains(&trigger),
                "Expected trigger list to contain {:?}, but it only contains: {:?}",
                trigger,
                triggers.trigger_data
            );
        }
    }
}

#[test]
fn triggers_come_in_order() {
    let mut block = block_with_event_types(vec!["b"], vec!["t"], vec!["e"]);
    block
        .transactions
        .push(tx_with_messages(2, vec![message("/m1"), message("/m2")]));
    let header = HeaderOnlyBlock::from(&block);
    let txs = block.transactions.clone();
    let found = TriggersAdapter {}
        .triggers_in_block(block.clone(), &filter_for(true, &["e", "b", "t"]))
        .unwrap();
    let expected = vec![
        CosmosTrigger::with_event(
            event_with_type("b"),
            header.clone(),
            None,
            EventOrigin::BeginBlock,
        ),
        CosmosTrigger::with_event(
            event_with_type("t"),
            header.clone(),
            Some(build_tx_context(&txs[0])),
            EventOrigin::DeliverTx,
        ),
        CosmosTrigger::with_event(
            event_with_type("e"),
            header.clone(),
            None,
            EventOrigin::EndBlock,
        ),
        CosmosTrigger::with_transaction(txs[0].clone(), header.clone()),
        CosmosTrigger::with_message(
            message("/m1"),
            header.clone(),
            build_tx_context(&txs[1]),
        ),
        CosmosTrigger::with_message(
            message("/m2"),
            header.clone(),
            build_tx_context(&txs[1]),
        ),
        CosmosTrigger::with_transaction(txs[1].clone(), header.clone()),
        CosmosTrigger::Block(Arc::new(block.clone())),
    ];
    assert_eq!(found.trigger_data, expected);
    assert_eq!(found.block, block);
}

#[test]
fn context_of_a_transaction() {
    let context = build_tx_context(&tx_with_messages(3, vec![]));
    assert_eq!(context.hash, vec![3, 7]);
    assert_eq!(context.index, 3);
    assert_eq!(context.code, 5);
    assert_eq!(context.gas_wanted, 20);
    assert_eq!(context.gas_used, 10);
}

#[test]
fn event_is_kept_with_its_attributes() {
    let event = Event {
        event_type: "transfer".to_string(),
        attributes: vec![EventAttribute {
            key: "amount".to_string(),
            value: "1uatom".to_string(),
            index: true,
        }],
    };
    let header = HeaderOnlyBlock::from(&empty_block());
    let kept = filter_event_trigger(
        &filter_for(false, &["transfer"]),
        event.clone(),
        &header,
        None,
        EventOrigin::EndBlock,
    );
    match kept {
        Some(CosmosTrigger::Event { event_data, origin }) => {
            assert_eq!(origin, EventOrigin::EndBlock);
            assert_eq!(event_data.event, Some(event.clone()));
            assert_eq!(event_data.block, Some(header.clone()));
            assert_eq!(event_data.tx, None);
        }
        other => panic!("unexpected trigger {:?}", other),
    }
    let dropped = filter_event_trigger(
        &filter_for(true, &["transfers", "trans", ""]),
        event,
        &header,
        None,
        EventOrigin::EndBlock,
    );
    assert_eq!(dropped, None);
}

#[test]
fn equal_events_all_trigger() {
    let block = block_with_event_types(vec!["a", "a", "b", "a"], vec![], vec!["a"]);
    let found = TriggersAdapter {}
        .triggers_in_block(block, &filter_for(false, &["a"]))
        .unwrap();
    assert_eq!(found.trigger_data.len(), 4);
}

#[test]
fn narrower_filter_keeps_its_part() {
    let block = block_with_event_types(vec!["a", "b", "a"], vec!["b", "a"], vec!["c", "a"]);
    let wide = TriggersAdapter {}
        .triggers_in_block(block.clone(), &filter_for(false, &["a", "b"]))
        .unwrap();
    let narrow = TriggersAdapter {}
        .triggers_in_block(block, &filter_for(false, &["a"]))
        .unwrap();
    let kept: Vec<_> = wide
        .trigger_data
        .iter()
        .filter(|t| match t {
            CosmosTrigger::Event { event_data, .. } => {
                event_data.event.as_ref().unwrap().event_type == "a"
            }
            _ => true,
        })
        .collect();
    assert_eq!(narrow.trigger_data.iter().collect::<Vec<_>>(), kept);
    assert_eq!(narrow.trigger_data.len(), 4 + 2);
}

#[test]
fn blocks_without_results_are_refused() {
    let adapter = TriggersAdapter {};
    let filter = filter_for(true, &["a"]);
    let mut block = empty_block();
    block.result_end_block = None;
    assert!(matches!(
        adapter.triggers_in_block(block.clone(), &filter),
        Err(Error::MissingEndBlock)
    ));
    block.result_begin_block = None;
    assert!(matches!(
        adapter.triggers_in_block(block, &filter),
        Err(Error::MissingBeginBlock)
    ));
}

#[test]
fn parent_of_a_pointer() {
    let parent = TriggersAdapter {}
        .parent_ptr(&BlockPtr {
            hash: BlockHash(vec![1, 2]),
            number: 8,
        })
        .unwrap()
        .unwrap();
    assert_eq!(parent.number, 7);
    assert_eq!(parent.hash, BlockHash(vec![0xff; 32]));
    let lowest = TriggersAdapter {}
        .parent_ptr(&BlockPtr {
            hash: BlockHash(vec![]),
            number: i32::MIN,
        })
        .unwrap()
        .unwrap();
    assert_eq!(lowest.number, i32::MIN);
}

#[test]
fn filter_matches_its_types() {
    let filter = filter_for(false, &["a", "b", "a"]);
    assert!(filter.event_type_filter.matches(&"a".to_string()));
    assert!(filter.event_type_filter.matches(&"b".to_string()));
    assert!(!filter.event_type_filter.matches(&"c".to_string()));
    assert!(!filter.event_type_filter.matches(&"".to_string()));
    assert!(!filter.block_filter.trigger_every_block);
}
