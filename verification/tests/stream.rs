//! Events, errors and faults of firehose responses, and the set-up of a chain.

use graph_chain_cosmos::adapter::TriggerFilter;
use graph_chain_cosmos::block::{BlockHash, BlockPtr};
use graph_chain_cosmos::chain::{BasicBlockchainBuilder, Chain};
use graph_chain_cosmos::codec::{Any, Block};
use graph_chain_cosmos::error::Error;
use graph_chain_cosmos::firehose::{
    BlockStreamEvent, Fault, FirehoseCursor, FirehoseError, FirehoseMapper, ForkStep, Response,
};
use graph_chain_cosmos::trigger::CosmosTrigger;
use graph_chain_cosmos::triggers::TriggersAdapter;
use std::sync::Arc;

fn delimited(tag: u8, value: &[u8]) -> Vec<u8> {
    let mut bytes = vec![(tag << 3) | 2, value.len() as u8];
    bytes.extend_from_slice(value);
    bytes
}

fn mapper(trigger_every_block: bool, event_types: &[&str]) -> FirehoseMapper {
    FirehoseMapper {
        adapter: TriggersAdapter {},
        filter: Arc::new(TriggerFilter::new(
            trigger_every_block,
            event_types.iter().map(|t| t.to_string()).collect(),
        )),
    }
}

fn response(step: i32, payload: Vec<u8>) -> Response {
    Response {
        block: Some(Any {
            type_url: "".to_string(),
            value: payload,
        }),
        step,
        cursor: "here".to_string(),
    }
}

/// A header with a height and, if there is one, the hash of the parent.
fn header(height: &[u8], parent: Option<&[u8]>) -> Vec<u8> {
    let mut bytes = vec![0x18];
    bytes.extend_from_slice(height);
    if let Some(hash) = parent {
        bytes.extend(delimited(5, &delimited(1, hash)));
    }
    delimited(1, &bytes)
}

/// Empty begin-block and end-block results.
fn results() -> Vec<u8> {
    let mut bytes = delimited(4, &[]);
    bytes.extend(delimited(5, &[]));
    bytes
}

#[test]
fn steps() {
    assert_eq!(ForkStep::from_i32(0), Some(ForkStep::StepUnset));
    assert_eq!(ForkStep::from_i32(1), Some(ForkStep::StepNew));
    assert_eq!(ForkStep::from_i32(2), Some(ForkStep::StepUndo));
    assert_eq!(ForkStep::from_i32(3), Some(ForkStep::StepFinal));
    assert_eq!(ForkStep::from_i32(4), None);
    assert_eq!(ForkStep::from_i32(-1), None);
}

#[test]
fn decoding_a_payload() {
    let mapper = mapper(false, &[]);
    match mapper.decode_block(None) {
        Err(err) => {
            assert!(matches!(err, Error::MissingBlock));
            assert_eq!(
                err.message(),
                "cosmos mapper is expected to always have a block"
            );
        }
        other => panic!("unexpected outcome {:?}", other),
    }
    match mapper.decode_block(Some(&[0x00])) {
        Err(err) => {
            assert!(matches!(err, Error::Decode(_)));
            assert_eq!(
                err.message(),
                "failed to decode Protobuf message: invalid tag value: 0"
            );
        }
        other => panic!("unexpected outcome {:?}", other),
    }
    let block = mapper
        .decode_block(Some(&header(&[0x07], None)))
        .unwrap()
        .unwrap();
    assert_eq!(block.header.unwrap().height, 7);
}

#[test]
fn new_block_is_processed() {
    let mut payload = header(&[0x07], Some(&[1, 2]));
    payload.extend(delimited(4, &delimited(1, &delimited(1, b"a"))));
    payload.extend(delimited(5, &delimited(3, &delimited(1, b"b"))));
    let mapper = mapper(true, &["b"]);
    match mapper.to_block_stream_event(&response(1, payload.clone())) {
        Ok(BlockStreamEvent::ProcessBlock(found, cursor)) => {
            assert_eq!(cursor, FirehoseCursor("here".to_string()));
            assert_eq!(found.block, Block::decode(&payload).unwrap());
            assert_eq!(found.trigger_data.len(), 2);
            assert!(matches!(&found.trigger_data[1], CosmosTrigger::Block(block)
                if **block == found.block));
            assert_eq!(mapper.final_block_number_for(&found.block), 7);
        }
        other => panic!("unexpected outcome {:?}", other),
    }
}

#[test]
fn undone_block_is_reverted() {
    let event = mapper(false, &[])
        .checked_block_stream_event(&response(2, header(&[0x07], Some(&[1, 2]))))
        .unwrap();
    match event {
        Ok(BlockStreamEvent::Revert(parent, cursor)) => {
            assert_eq!(cursor, FirehoseCursor("here".to_string()));
            assert_eq!(
                parent,
                BlockPtr {
                    hash: BlockHash(vec![1, 2]),
                    number: 6
                }
            );
        }
        other => panic!("unexpected outcome {:?}", other),
    }
}

#[test]
fn undo_ignores_the_mapper() {
    let mappers = [mapper(false, &[]), mapper(true, &["transfer"])];
    let payloads = [
        header(&[0x07], Some(&[1, 2])),
        results(),
        vec![0xff],
        delimited(1, &[0x1a]),
    ];
    for payload in payloads {
        let outcomes: Vec<String> = mappers
            .iter()
            .map(|mapper| {
                let response = response(2, payload.clone());
                format!("{:?}", mapper.checked_block_stream_event(&response))
            })
            .collect();
        assert_eq!(outcomes[0], outcomes[1]);
    }
}

#[test]
fn errors_of_responses() {
    let mapper = mapper(true, &[]);
    let cases: Vec<(i32, Vec<u8>, fn(&Error) -> bool)> = vec![
        (1, vec![0xff], |err| matches!(err, Error::Decode(_))),
        (2, vec![0xff], |err| matches!(err, Error::Decode(_))),
        (3, vec![0xff], |err| matches!(err, Error::Decode(_))),
        (0, vec![0xff], |err| matches!(err, Error::Decode(_))),
        (1, vec![], |err| matches!(err, Error::MissingBeginBlock)),
        (1, delimited(4, &[]), |err| {
            matches!(err, Error::MissingEndBlock)
        }),
        (2, vec![], |err| matches!(err, Error::MissingHeader)),
    ];
    for (step, payload, expected) in cases {
        match mapper.checked_block_stream_event(&response(step, payload)) {
            Ok(Err(FirehoseError(err))) => assert!(expected(&err), "{:?}", err),
            other => panic!("unexpected outcome {:?}", other),
        }
    }
    let broken = response(2, delimited(1, &[0x1a, 0x01, 0x05]));
    match mapper.checked_block_stream_event(&broken).unwrap() {
        Err(FirehoseError(err)) => assert_eq!(
            err.message(),
            "failed to decode Protobuf message: Header.height: Block.header: invalid wire type: LengthDelimited (expected Varint)"
        ),
        other => panic!("unexpected outcome {:?}", other),
    }
    assert_eq!(
        Error::MissingHeader.message(),
        "block data missing header field"
    );
    assert_eq!(
        Error::MissingBeginBlock.message(),
        "block data missing result_begin_block field"
    );
    assert_eq!(
        Error::MissingEndBlock.message(),
        "block data missing result_end_block field"
    );
}

#[test]
fn faults_of_responses() {
    let mapper = mapper(true, &[]);
    let mut no_outcome = results();
    no_outcome.extend(delimited(7, &[]));
    let cases = vec![
        (9, vec![], Fault::UnknownStep(9)),
        (3, vec![], Fault::FinalStep),
        (0, vec![], Fault::UnsetStep),
        (1, no_outcome, Fault::MissingTxResult),
        (2, header(&[0x07], None), Fault::GenesisReverted),
        (2, header(&[0x00], Some(&[1])), Fault::ParentOutOfRange),
        (
            2,
            header(&[0x81, 0x80, 0x80, 0x80, 0x08], Some(&[1])),
            Fault::ParentOutOfRange,
        ),
    ];
    for (step, payload, expected) in cases {
        let response = response(step, payload);
        assert_eq!(mapper.find_fault(&response), Some(expected));
        assert_eq!(
            mapper.checked_block_stream_event(&response).err(),
            Some(expected)
        );
    }
    let mut response = response(1, results());
    assert_eq!(mapper.find_fault(&response), None);
    response.block = None;
    assert_eq!(mapper.find_fault(&response), Some(Fault::MissingPayload));
    // The highest block number is in range.
    let last = Response {
        block: Some(Any {
            type_url: "".to_string(),
            value: header(&[0x80, 0x80, 0x80, 0x80, 0x08], Some(&[1])),
        }),
        step: 2,
        cursor: "".to_string(),
    };
    match mapper.checked_block_stream_event(&last).unwrap() {
        Ok(BlockStreamEvent::Revert(parent, _)) => assert_eq!(parent.number, i32::MAX),
        other => panic!("unexpected outcome {:?}", other),
    }
}

#[test]
fn type_url_is_ignored() {
    let mapper = mapper(false, &[]);
    let mut response = response(2, header(&[0x07], Some(&[1, 2])));
    response.block.as_mut().unwrap().type_url = "something/else".to_string();
    assert!(matches!(
        mapper.to_block_stream_event(&response),
        Ok(BlockStreamEvent::Revert(_, _))
    ));
}

fn chain() -> Chain {
    BasicBlockchainBuilder {
        name: "cosmoshub-4".to_string(),
    }
    .build()
}

#[test]
fn set_up_of_a_chain() {
    let chain = chain();
    assert_eq!(chain.name, "cosmoshub-4");
    assert_eq!(chain.debug_text(), "chain: cosmos");
    assert!(!chain.is_refetch_block_required());
    assert!(chain.triggers_adapter().is_ok());
    let ingestor = chain.block_ingestor();
    assert_eq!(ingestor.chain, "cosmoshub-4");
    assert_eq!(ingestor.component, "CosmosFirehoseBlockIngestor");
}

#[test]
fn set_up_of_a_block_stream() {
    let filter = Arc::new(TriggerFilter::new(true, vec!["transfer".to_string()]));
    let config = chain()
        .new_block_stream(
            "Qm1".to_string(),
            Some(BlockPtr {
                hash: BlockHash(vec![5]),
                number: 4,
            }),
            FirehoseCursor("c".to_string()),
            vec![3, 9],
            filter.clone(),
        )
        .unwrap();
    assert_eq!(config.deployment, "Qm1");
    assert_eq!(config.current_block.unwrap().number, 4);
    assert_eq!(config.cursor, FirehoseCursor("c".to_string()));
    assert_eq!(config.start_blocks, vec![3, 9]);
    assert_eq!(config.component, "FirehoseBlockStream");
    assert!(Arc::ptr_eq(&config.mapper.filter, &filter));
    assert!(config.mapper.trigger_filter().block_filter.trigger_every_block);
}
