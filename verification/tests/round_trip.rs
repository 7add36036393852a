//! Blocks that are encoded with the calls of `prost` and decoded again.

use graph_chain_cosmos::adapter::TriggerFilter;
use graph_chain_cosmos::codec::{
    Any, Block, BlockId, Consensus, Event, EventAttribute, Header, PartSetHeader,
    ResponseBeginBlock, ResponseDeliverTx, ResponseEndBlock, Timestamp, Tx, TxBody, TxResult,
};
use graph_chain_cosmos::firehose::FirehoseMapper;
use graph_chain_cosmos::triggers::TriggersAdapter;
use prost::encoding::{bool, bytes, encode_key, encode_varint, int32, int64, string, uint32, uint64};
use prost::encoding::WireType;
use std::sync::Arc;

fn message(tag: u32, content: Vec<u8>, out: &mut Vec<u8>) {
    encode_key(tag, WireType::LengthDelimited, out);
    encode_varint(content.len() as u64, out);
    out.extend(content);
}

fn texts(fields: &[(u32, &String)], out: &mut Vec<u8>) {
    for (tag, text) in fields {
        if !text.is_empty() {
            string::encode(*tag, text, out);
        }
    }
}

fn all_bytes(fields: &[(u32, &Vec<u8>)], out: &mut Vec<u8>) {
    for (tag, value) in fields {
        if !value.is_empty() {
            bytes::encode(*tag, *value, out);
        }
    }
}

fn number(tag: u32, number: u64, out: &mut Vec<u8>) {
    if number != 0 {
        uint64::encode(tag, &number, out);
    }
}

fn any(value: &Any) -> Vec<u8> {
    let mut out = Vec::new();
    texts(&[(1, &value.type_url)], &mut out);
    all_bytes(&[(2, &value.value)], &mut out);
    out
}

fn event(value: &Event) -> Vec<u8> {
    let mut out = Vec::new();
    texts(&[(1, &value.event_type)], &mut out);
    for attribute in &value.attributes {
        let mut content = Vec::new();
        texts(&[(1, &attribute.key), (2, &attribute.value)], &mut content);
        if attribute.index {
            bool::encode(3, &attribute.index, &mut content);
        }
        message(2, content, &mut out);
    }
    out
}

fn header(value: &Header) -> Vec<u8> {
    let mut out = Vec::new();
    if let Some(version) = &value.version {
        let mut content = Vec::new();
        number(1, version.block, &mut content);
        number(2, version.app, &mut content);
        message(1, content, &mut out);
    }
    texts(&[(2, &value.chain_id)], &mut out);
    number(3, value.height, &mut out);
    if let Some(time) = &value.time {
        let mut content = Vec::new();
        int64::encode(1, &time.seconds, &mut content);
        int32::encode(2, &time.nanos, &mut content);
        message(4, content, &mut out);
    }
    if let Some(id) = &value.last_block_id {
        let mut content = Vec::new();
        all_bytes(&[(1, &id.hash)], &mut content);
        if let Some(parts) = &id.part_set_header {
            let mut inner = Vec::new();
            uint32::encode(1, &parts.total, &mut inner);
            all_bytes(&[(2, &parts.hash)], &mut inner);
            message(2, inner, &mut content);
        }
        message(5, content, &mut out);
    }
    all_bytes(
        &[
            (6, &value.last_commit_hash),
            (7, &value.data_hash),
            (8, &value.validators_hash),
            (9, &value.next_validators_hash),
            (10, &value.consensus_hash),
            (11, &value.app_hash),
            (12, &value.last_results_hash),
            (13, &value.evidence_hash),
            (14, &value.proposer_address),
            (15, &value.hash),
        ],
        &mut out,
    );
    out
}

fn tx_result(value: &TxResult) -> Vec<u8> {
    let mut out = Vec::new();
    number(1, value.height, &mut out);
    number(2, value.index as u64, &mut out);
    if let Some(tx) = &value.tx {
        let mut content = Vec::new();
        if let Some(body) = &tx.body {
            let mut inner = Vec::new();
            for sent in &body.messages {
                message(1, any(sent), &mut inner);
            }
            texts(&[(2, &body.memo)], &mut inner);
            number(3, body.timeout_height, &mut inner);
            for option in &body.extension_options {
                message(1023, any(option), &mut inner);
            }
            for option in &body.non_critical_extension_options {
                message(2047, any(option), &mut inner);
            }
            message(1, inner, &mut content);
        }
        if let Some(auth_info) = &tx.auth_info {
            message(2, auth_info.clone(), &mut content);
        }
        bytes::encode_repeated(3, &tx.signatures, &mut content);
        message(3, content, &mut out);
    }
    if let Some(result) = &value.result {
        let mut content = Vec::new();
        number(1, result.code as u64, &mut content);
        all_bytes(&[(2, &result.data)], &mut content);
        texts(&[(3, &result.log), (4, &result.info)], &mut content);
        int64::encode(5, &result.gas_wanted, &mut content);
        int64::encode(6, &result.gas_used, &mut content);
        for found in &result.events {
            message(7, event(found), &mut content);
        }
        texts(&[(8, &result.codespace)], &mut content);
        message(4, content, &mut out);
    }
    all_bytes(&[(5, &value.hash)], &mut out);
    out
}

fn encode(block: &Block) -> Vec<u8> {
    let mut out = Vec::new();
    if let Some(value) = &block.header {
        message(1, header(value), &mut out);
    }
    if let Some(evidence) = &block.evidence {
        message(2, evidence.clone(), &mut out);
    }
    if let Some(commit) = &block.last_commit {
        message(3, commit.clone(), &mut out);
    }
    if let Some(begin) = &block.result_begin_block {
        let mut content = Vec::new();
        for found in &begin.events {
            message(1, event(found), &mut content);
        }
        message(4, content, &mut out);
    }
    if let Some(end) = &block.result_end_block {
        let mut content = Vec::new();
        for update in &end.validator_updates {
            message(1, update.clone(), &mut content);
        }
        if let Some(params) = &end.consensus_param_updates {
            message(2, params.clone(), &mut content);
        }
        for found in &end.events {
            message(3, event(found), &mut content);
        }
        message(5, content, &mut out);
    }
    for tx in &block.transactions {
        message(7, tx_result(tx), &mut out);
    }
    for update in &block.validator_updates {
        message(8, update.clone(), &mut out);
    }
    out
}

fn transfer(value: &str) -> Event {
    let attribute = |key: &str, index: bool| EventAttribute {
        key: key.to_string(),
        value: value.to_string(),
        index,
    };
    Event {
        event_type: "transfer".to_string(),
        attributes: vec![attribute("recipient", true), attribute("", false)],
    }
}

fn option(type_url: &str) -> Any {
    Any {
        type_url: type_url.to_string(),
        value: type_url.as_bytes().to_vec(),
    }
}

fn full_block() -> Block {
    let id = BlockId {
        hash: vec![0xff; 200],
        part_set_header: Some(PartSetHeader {
            total: u32::MAX,
            hash: vec![1],
        }),
    };
    let tx = Tx {
        body: Some(TxBody {
            messages: vec![option("/send"), option("")],
            memo: "caf\u{e9} \u{1d11e}".to_string(),
            timeout_height: 1 << 63,
            extension_options: vec![option("/first")],
            non_critical_extension_options: vec![option("/second"), option("/third")],
        }),
        auth_info: Some(vec![0x12, 0x02, 0x10, 0x05]),
        signatures: vec![vec![3, 4], vec![], vec![5]],
    };
    let result = ResponseDeliverTx {
        code: 17,
        data: vec![8],
        log: "log".to_string(),
        info: "info".to_string(),
        gas_wanted: i64::MAX,
        gas_used: i64::MIN,
        events: vec![transfer("a"), transfer("b")],
        codespace: "sdk".to_string(),
    };
    Block {
        header: Some(Header {
            version: Some(Consensus { block: 11, app: 0 }),
            chain_id: "test".to_string(),
            height: u64::MAX,
            time: Some(Timestamp {
                seconds: -5,
                nanos: -1,
            }),
            last_block_id: Some(id),
            last_commit_hash: vec![6],
            data_hash: vec![7],
            validators_hash: vec![8],
            next_validators_hash: vec![9],
            consensus_hash: vec![10],
            app_hash: vec![11],
            last_results_hash: vec![12],
            evidence_hash: vec![],
            proposer_address: vec![14],
            hash: vec![15],
        }),
        evidence: Some(vec![]),
        last_commit: Some(vec![0x08, 0x05]),
        result_begin_block: Some(ResponseBeginBlock {
            events: vec![transfer("c")],
        }),
        result_end_block: Some(ResponseEndBlock {
            validator_updates: vec![vec![0x18, 0x07], vec![]],
            consensus_param_updates: Some(vec![0x0a, 0x02, 0x08, 0x01]),
            events: vec![],
        }),
        transactions: vec![
            TxResult {
                height: 1,
                index: u32::MAX,
                tx: Some(tx),
                result: Some(result),
                hash: vec![16],
            },
            TxResult {
                height: 0,
                index: 0,
                tx: None,
                result: None,
                hash: vec![],
            },
        ],
        validator_updates: vec![vec![0x18, 0x07], vec![]],
    }
}

#[test]
fn decoding_undoes_encoding() {
    let block = full_block();
    assert_eq!(Block::decode(&encode(&block)).unwrap(), block);
    let small = Block {
        header: None,
        evidence: None,
        last_commit: None,
        result_begin_block: None,
        result_end_block: None,
        transactions: vec![],
        validator_updates: vec![],
    };
    assert_eq!(encode(&small), Vec::<u8>::new());
    assert_eq!(Block::decode(&encode(&small)).unwrap(), small);
}

#[test]
fn mapper_decodes_an_encoded_block() {
    let mapper = FirehoseMapper {
        adapter: TriggersAdapter {},
        filter: Arc::new(TriggerFilter::new(false, vec![])),
    };
    let payload = encode(&full_block());
    let decoded = mapper.decode_block(Some(&payload)).unwrap();
    assert_eq!(decoded, Some(full_block()));
}

#[test]
fn decoded_block_is_kept() {
    // A header in two parts, with a padded height, behind evidence in two parts.
    let bytes = [
        0x12, 0x02, 0x0a, 0x00, 0x0a, 0x04, 0x18, 0x85, 0x80, 0x00, 0x12, 0x00, 0x0a, 0x03, 0x12,
        0x01, 0x61, 0x50, 0x01,
    ];
    let block = Block::decode(&bytes).unwrap();
    assert_eq!(block.header.as_ref().unwrap().height, 5);
    assert_eq!(block.header.as_ref().unwrap().chain_id, "a");
    assert_eq!(block.evidence, Some(vec![0x0a, 0x00]));
    let encoded = encode(&block);
    assert_ne!(encoded, bytes.to_vec());
    assert_eq!(Block::decode(&encoded).unwrap(), block);
}
