//! Messages from their fields.

use crate::codec::{
    Any, AnyModel, Block, BlockId, BlockIdModel, BlockModel, Consensus, ConsensusModel, Event,
    EventAttribute, EventAttributeModel, EventModel, Header, HeaderModel, PartSetHeader,
    PartSetHeaderModel, ResponseBeginBlock, ResponseBeginBlockModel, ResponseDeliverTx,
    ResponseDeliverTxModel, ResponseEndBlock, ResponseEndBlockModel, Timestamp, TimestampModel, Tx,
    TxBody, TxBodyModel, TxModel, TxResult, TxResultModel,
};
use crate::fields::{read_fields, FailureModel, Field, FieldModel};
use crate::lookup::{
    borrow_fields, find_all_bytes, find_all_messages, find_bytes, find_encoded, find_message,
    find_number, find_text,
};
use crate::schema::Kind;
use crate::{fields, lookup, wire};
use prost::DecodeError;
use vstd::prelude::*;

verus! {

/// The fields read as a typed payload.
pub open spec fn any_model(fields: Seq<FieldModel>) -> AnyModel {
    AnyModel {
        type_url: lookup::text(fields, 1),
        value: lookup::bytes(fields, 2),
    }
}

/// Reads fields as a typed payload.
fn to_any(fields: &Vec<&Field>) -> (res: Any)
    ensures
        res.deep_view() == any_model(lookup::models(fields@)),
{
    Any {
        type_url: find_text(fields, 1),
        value: find_bytes(fields, 2),
    }
}

/// Reads all messages with a given tag as anys.
fn to_anys(fields: &Vec<&Field>, tag: u32) -> (res: Vec<Any>)
    ensures
        res.deep_view() == lookup::all_messages(lookup::models(fields@), tag).map_values(
            |content: Seq<FieldModel>| any_model(content),
        ),
{
    let all = find_all_messages(fields, tag);
    let ghost contents = lookup::message_models(all@);
    let mut res: Vec<Any> = Vec::new();
    let mut i: usize = 0;
    while i < all.len()
        invariant
            i <= all.len(),
            contents == lookup::message_models(all@),
            res@.len() == i,
            forall|k: int|
                0 <= k < i ==> #[trigger] res@[k].deep_view() == any_model(contents[k]),
        decreases all.len() - i,
    {
        res.push(to_any(&all[i]));
        i = i + 1;
    }
    assert(res.deep_view() =~= contents.map_values(
        |content: Seq<FieldModel>| any_model(content),
    ));
    res
}

/// The fields read as an attribute of an event.
pub open spec fn event_attribute_model(fields: Seq<FieldModel>) -> EventAttributeModel {
    EventAttributeModel {
        key: lookup::text(fields, 1),
        value: lookup::text(fields, 2),
        index: lookup::number(fields, 3) != 0,
    }
}

/// Reads fields as an attribute of an event.
fn to_event_attribute(fields: &Vec<&Field>) -> (res: EventAttribute)
    ensures
        res.deep_view() == event_attribute_model(lookup::models(fields@)),
{
    EventAttribute {
        key: find_text(fields, 1),
        value: find_text(fields, 2),
        index: find_number(fields, 3) != 0,
    }
}

/// Reads all messages with a given tag as event attributes.
fn to_event_attributes(fields: &Vec<&Field>, tag: u32) -> (res: Vec<EventAttribute>)
    ensures
        res.deep_view() == lookup::all_messages(lookup::models(fields@), tag).map_values(
            |content: Seq<FieldModel>| event_attribute_model(content),
        ),
{
    let all = find_all_messages(fields, tag);
    let ghost contents = lookup::message_models(all@);
    let mut res: Vec<EventAttribute> = Vec::new();
    let mut i: usize = 0;
    while i < all.len()
        invariant
            i <= all.len(),
            contents == lookup::message_models(all@),
            res@.len() == i,
            forall|k: int|
                0 <= k < i ==> #[trigger] res@[k].deep_view() == event_attribute_model(contents[k]),
        decreases all.len() - i,
    {
        res.push(to_event_attribute(&all[i]));
        i = i + 1;
    }
    assert(res.deep_view() =~= contents.map_values(
        |content: Seq<FieldModel>| event_attribute_model(content),
    ));
    res
}

/// The fields read as an event.
pub open spec fn event_model(fields: Seq<FieldModel>) -> EventModel {
    EventModel {
        event_type: lookup::text(fields, 1),
        attributes: lookup::all_messages(fields, 2).map_values(
            |content: Seq<FieldModel>| event_attribute_model(content),
        ),
    }
}

/// Reads fields as an event.
fn to_event(fields: &Vec<&Field>) -> (res: Event)
    ensures
        res.deep_view() == event_model(lookup::models(fields@)),
{
    Event {
        event_type: find_text(fields, 1),
        attributes: to_event_attributes(fields, 2),
    }
}

/// Reads all messages with a given tag as events.
fn to_events(fields: &Vec<&Field>, tag: u32) -> (res: Vec<Event>)
    ensures
        res.deep_view() == lookup::all_messages(lookup::models(fields@), tag).map_values(
            |content: Seq<FieldModel>| event_model(content),
        ),
{
    let all = find_all_messages(fields, tag);
    let ghost contents = lookup::message_models(all@);
    let mut res: Vec<Event> = Vec::new();
    let mut i: usize = 0;
    while i < all.len()
        invariant
            i <= all.len(),
            contents == lookup::message_models(all@),
            res@.len() == i,
            forall|k: int|
                0 <= k < i ==> #[trigger] res@[k].deep_view() == event_model(contents[k]),
        decreases all.len() - i,
    {
        res.push(to_event(&all[i]));
        i = i + 1;
    }
    assert(res.deep_view() =~= contents.map_values(
        |content: Seq<FieldModel>| event_model(content),
    ));
    res
}

/// The fields read as protocol versions.
pub open spec fn consensus_model(fields: Seq<FieldModel>) -> ConsensusModel {
    ConsensusModel {
        block: lookup::number(fields, 1),
        app: lookup::number(fields, 2),
    }
}

/// Reads fields as protocol versions.
fn to_consensus(fields: &Vec<&Field>) -> (res: Consensus)
    ensures
        res.deep_view() == consensus_model(lookup::models(fields@)),
{
    Consensus {
        block: find_number(fields, 1),
        app: find_number(fields, 2),
    }
}

/// The fields read as a point in time.
pub open spec fn timestamp_model(fields: Seq<FieldModel>) -> TimestampModel {
    TimestampModel {
        seconds: lookup::number(fields, 1) as i64,
        nanos: lookup::number(fields, 2) as i32,
    }
}

/// Reads fields as a point in time.
fn to_timestamp(fields: &Vec<&Field>) -> (res: Timestamp)
    ensures
        res.deep_view() == timestamp_model(lookup::models(fields@)),
{
    Timestamp {
        seconds: find_number(fields, 1) as i64,
        nanos: find_number(fields, 2) as i32,
    }
}

/// The fields read as a summary of block parts.
pub open spec fn part_set_header_model(fields: Seq<FieldModel>) -> PartSetHeaderModel {
    PartSetHeaderModel {
        total: lookup::number(fields, 1) as u32,
        hash: lookup::bytes(fields, 2),
    }
}

/// Reads fields as a summary of block parts.
fn to_part_set_header(fields: &Vec<&Field>) -> (res: PartSetHeader)
    ensures
        res.deep_view() == part_set_header_model(lookup::models(fields@)),
{
    PartSetHeader {
        total: find_number(fields, 1) as u32,
        hash: find_bytes(fields, 2),
    }
}

/// The fields read as the identity of a block.
pub open spec fn block_id_model(fields: Seq<FieldModel>) -> BlockIdModel {
    BlockIdModel {
        hash: lookup::bytes(fields, 1),
        part_set_header: match lookup::message(fields, 2) {
            Some(content) => Some(part_set_header_model(content)),
            None => None,
        },
    }
}

/// Reads fields as the identity of a block.
fn to_block_id(fields: &Vec<&Field>) -> (res: BlockId)
    ensures
        res.deep_view() == block_id_model(lookup::models(fields@)),
{
    BlockId {
        hash: find_bytes(fields, 1),
        part_set_header: match find_message(fields, 2) {
            Some(content) => Some(to_part_set_header(&content)),
            None => None,
        },
    }
}

/// The fields read as a block header.
pub open spec fn header_model(fields: Seq<FieldModel>) -> HeaderModel {
    HeaderModel {
        version: match lookup::message(fields, 1) {
            Some(content) => Some(consensus_model(content)),
            None => None,
        },
        chain_id: lookup::text(fields, 2),
        height: lookup::number(fields, 3),
        time: match lookup::message(fields, 4) {
            Some(content) => Some(timestamp_model(content)),
            None => None,
        },
        last_block_id: match lookup::message(fields, 5) {
            Some(content) => Some(block_id_model(content)),
            None => None,
        },
        last_commit_hash: lookup::bytes(fields, 6),
        data_hash: lookup::bytes(fields, 7),
        validators_hash: lookup::bytes(fields, 8),
        next_validators_hash: lookup::bytes(fields, 9),
        consensus_hash: lookup::bytes(fields, 10),
        app_hash: lookup::bytes(fields, 11),
        last_results_hash: lookup::bytes(fields, 12),
        evidence_hash: lookup::bytes(fields, 13),
        proposer_address: lookup::bytes(fields, 14),
        hash: lookup::bytes(fields, 15),
    }
}

/// Reads fields as a block header.
fn to_header(fields: &Vec<&Field>) -> (res: Header)
    ensures
        res.deep_view() == header_model(lookup::models(fields@)),
{
    Header {
        version: match find_message(fields, 1) {
            Some(content) => Some(to_consensus(&content)),
            None => None,
        },
        chain_id: find_text(fields, 2),
        height: find_number(fields, 3),
        time: match find_message(fields, 4) {
            Some(content) => Some(to_timestamp(&content)),
            None => None,
        },
        last_block_id: match find_message(fields, 5) {
            Some(content) => Some(to_block_id(&content)),
            None => None,
        },
        last_commit_hash: find_bytes(fields, 6),
        data_hash: find_bytes(fields, 7),
        validators_hash: find_bytes(fields, 8),
        next_validators_hash: find_bytes(fields, 9),
        consensus_hash: find_bytes(fields, 10),
        app_hash: find_bytes(fields, 11),
        last_results_hash: find_bytes(fields, 12),
        evidence_hash: find_bytes(fields, 13),
        proposer_address: find_bytes(fields, 14),
        hash: find_bytes(fields, 15),
    }
}

/// The fields read as a begin-block result.
pub open spec fn response_begin_block_model(fields: Seq<FieldModel>) -> ResponseBeginBlockModel {
    ResponseBeginBlockModel {
        events: lookup::all_messages(fields, 1).map_values(
            |content: Seq<FieldModel>| event_model(content),
        ),
    }
}

/// Reads fields as a begin-block result.
fn to_response_begin_block(fields: &Vec<&Field>) -> (res: ResponseBeginBlock)
    ensures
        res.deep_view() == response_begin_block_model(lookup::models(fields@)),
{
    ResponseBeginBlock {
        events: to_events(fields, 1),
    }
}

/// The fields read as an end-block result.
pub open spec fn response_end_block_model(fields: Seq<FieldModel>) -> ResponseEndBlockModel {
    ResponseEndBlockModel {
        validator_updates: lookup::all_bytes(fields, 1),
        consensus_param_updates: lookup::encoded(fields, 2),
        events: lookup::all_messages(fields, 3).map_values(
            |content: Seq<FieldModel>| event_model(content),
        ),
    }
}

/// Reads fields as an end-block result.
fn to_response_end_block(fields: &Vec<&Field>) -> (res: ResponseEndBlock)
    ensures
        res.deep_view() == response_end_block_model(lookup::models(fields@)),
{
    ResponseEndBlock {
        validator_updates: find_all_bytes(fields, 1),
        consensus_param_updates: find_encoded(fields, 2),
        events: to_events(fields, 3),
    }
}

/// The fields read as the content of a transaction.
pub open spec fn tx_body_model(fields: Seq<FieldModel>) -> TxBodyModel {
    TxBodyModel {
        messages: lookup::all_messages(fields, 1).map_values(
            |content: Seq<FieldModel>| any_model(content),
        ),
        memo: lookup::text(fields, 2),
        timeout_height: lookup::number(fields, 3),
        extension_options: lookup::all_messages(fields, 1023).map_values(
            |content: Seq<FieldModel>| any_model(content),
        ),
        non_critical_extension_options: lookup::all_messages(fields, 2047).map_values(
            |content: Seq<FieldModel>| any_model(content),
        ),
    }
}

/// Reads fields as the content of a transaction.
fn to_tx_body(fields: &Vec<&Field>) -> (res: TxBody)
    ensures
        res.deep_view() == tx_body_model(lookup::models(fields@)),
{
    TxBody {
        messages: to_anys(fields, 1),
        memo: find_text(fields, 2),
        timeout_height: find_number(fields, 3),
        extension_options: to_anys(fields, 1023),
        non_critical_extension_options: to_anys(fields, 2047),
    }
}

/// The fields read as a transaction.
pub open spec fn tx_model(fields: Seq<FieldModel>) -> TxModel {
    TxModel {
        body: match lookup::message(fields, 1) {
            Some(content) => Some(tx_body_model(content)),
            None => None,
        },
        auth_info: lookup::encoded(fields, 2),
        signatures: lookup::all_bytes(fields, 3),
    }
}

/// Reads fields as a transaction.
fn to_tx(fields: &Vec<&Field>) -> (res: Tx)
    ensures
        res.deep_view() == tx_model(lookup::models(fields@)),
{
    Tx {
        body: match find_message(fields, 1) {
            Some(content) => Some(to_tx_body(&content)),
            None => None,
        },
        auth_info: find_encoded(fields, 2),
        signatures: find_all_bytes(fields, 3),
    }
}

/// The fields read as the outcome of a transaction.
pub open spec fn response_deliver_tx_model(fields: Seq<FieldModel>) -> ResponseDeliverTxModel {
    ResponseDeliverTxModel {
        code: lookup::number(fields, 1) as u32,
        data: lookup::bytes(fields, 2),
        log: lookup::text(fields, 3),
        info: lookup::text(fields, 4),
        gas_wanted: lookup::number(fields, 5) as i64,
        gas_used: lookup::number(fields, 6) as i64,
        events: lookup::all_messages(fields, 7).map_values(
            |content: Seq<FieldModel>| event_model(content),
        ),
        codespace: lookup::text(fields, 8),
    }
}

/// Reads fields as the outcome of a transaction.
fn to_response_deliver_tx(fields: &Vec<&Field>) -> (res: ResponseDeliverTx)
    ensures
        res.deep_view() == response_deliver_tx_model(lookup::models(fields@)),
{
    ResponseDeliverTx {
        code: find_number(fields, 1) as u32,
        data: find_bytes(fields, 2),
        log: find_text(fields, 3),
        info: find_text(fields, 4),
        gas_wanted: find_number(fields, 5) as i64,
        gas_used: find_number(fields, 6) as i64,
        events: to_events(fields, 7),
        codespace: find_text(fields, 8),
    }
}

/// The fields read as a transaction with its outcome.
pub open spec fn tx_result_model(fields: Seq<FieldModel>) -> TxResultModel {
    TxResultModel {
        height: lookup::number(fields, 1),
        index: lookup::number(fields, 2) as u32,
        tx: match lookup::message(fields, 3) {
            Some(content) => Some(tx_model(content)),
            None => None,
        },
        result: match lookup::message(fields, 4) {
            Some(content) => Some(response_deliver_tx_model(content)),
            None => None,
        },
        hash: lookup::bytes(fields, 5),
    }
}

/// Reads fields as a transaction with its outcome.
fn to_tx_result(fields: &Vec<&Field>) -> (res: TxResult)
    ensures
        res.deep_view() == tx_result_model(lookup::models(fields@)),
{
    TxResult {
        height: find_number(fields, 1),
        index: find_number(fields, 2) as u32,
        tx: match find_message(fields, 3) {
            Some(content) => Some(to_tx(&content)),
            None => None,
        },
        result: match find_message(fields, 4) {
            Some(content) => Some(to_response_deliver_tx(&content)),
            None => None,
        },
        hash: find_bytes(fields, 5),
    }
}

/// Reads all messages with a given tag as tx results.
fn to_tx_results(fields: &Vec<&Field>, tag: u32) -> (res: Vec<TxResult>)
    ensures
        res.deep_view() == lookup::all_messages(lookup::models(fields@), tag).map_values(
            |content: Seq<FieldModel>| tx_result_model(content),
        ),
{
    let all = find_all_messages(fields, tag);
    let ghost contents = lookup::message_models(all@);
    let mut res: Vec<TxResult> = Vec::new();
    let mut i: usize = 0;
    while i < all.len()
        invariant
            i <= all.len(),
            contents == lookup::message_models(all@),
            res@.len() == i,
            forall|k: int|
                0 <= k < i ==> #[trigger] res@[k].deep_view() == tx_result_model(contents[k]),
        decreases all.len() - i,
    {
        res.push(to_tx_result(&all[i]));
        i = i + 1;
    }
    assert(res.deep_view() =~= contents.map_values(
        |content: Seq<FieldModel>| tx_result_model(content),
    ));
    res
}

/// The fields read as a block.
pub open spec fn block_model(fields: Seq<FieldModel>) -> BlockModel {
    BlockModel {
        header: match lookup::message(fields, 1) {
            Some(content) => Some(header_model(content)),
            None => None,
        },
        evidence: lookup::encoded(fields, 2),
        last_commit: lookup::encoded(fields, 3),
        result_begin_block: match lookup::message(fields, 4) {
            Some(content) => Some(response_begin_block_model(content)),
            None => None,
        },
        result_end_block: match lookup::message(fields, 5) {
            Some(content) => Some(response_end_block_model(content)),
            None => None,
        },
        transactions: lookup::all_messages(fields, 7).map_values(
            |content: Seq<FieldModel>| tx_result_model(content),
        ),
        validator_updates: lookup::all_bytes(fields, 8),
    }
}

/// Reads fields as a block.
fn to_block(fields: &Vec<&Field>) -> (res: Block)
    ensures
        res.deep_view() == block_model(lookup::models(fields@)),
{
    Block {
        header: match find_message(fields, 1) {
            Some(content) => Some(to_header(&content)),
            None => None,
        },
        evidence: find_encoded(fields, 2),
        last_commit: find_encoded(fields, 3),
        result_begin_block: match find_message(fields, 4) {
            Some(content) => Some(to_response_begin_block(&content)),
            None => None,
        },
        result_end_block: match find_message(fields, 5) {
            Some(content) => Some(to_response_end_block(&content)),
            None => None,
        },
        transactions: to_tx_results(fields, 7),
        validator_updates: find_all_bytes(fields, 8),
    }
}

/// The fields of an encoded block.
pub open spec fn block_fields(input: Seq<u8>) -> Result<Seq<FieldModel>, FailureModel> {
    fields::fields(Kind::Block, input, 0, wire::RECURSION_LIMIT as nat)
}

/// The block that bytes encode; `None` if they are not an encoded block.
pub open spec fn decoded_block(input: Seq<u8>) -> Option<BlockModel> {
    match block_fields(input) {
        Ok(fields) => Some(block_model(fields)),
        Err(_) => None,
    }
}

/// The error is one that decoding bytes as a block gives.
pub open spec fn is_decoding_error(input: Seq<u8>, err: DecodeError) -> bool {
    exists|bytes: &[u8]|
        bytes@ == input && #[trigger] call_ensures(
            Block::decode,
            (bytes,),
            Err::<Block, DecodeError>(err),
        )
}

impl Block {
    /// Decodes a block. An error is that of the call that fails, and tells in which field of which
    /// message it came up.
    pub fn decode(input: &[u8]) -> (res: Result<Block, DecodeError>)
        ensures
            match res {
                Ok(block) => decoded_block(input@) == Some(block.deep_view()),
                Err(err) => match block_fields(input@) {
                    Ok(_) => false,
                    Err(failure) => fields::tells(failure, err),
                },
            },
    {
        match read_fields(Kind::Block, input, 0, wire::RECURSION_LIMIT) {
            Ok(fields) => Ok(to_block(&borrow_fields(&fields))),
            Err(failure) => Err(failure.into_error()),
        }
    }
}

} // verus!
