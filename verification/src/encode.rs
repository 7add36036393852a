//! The encoding of blocks.
//!
//! The fields of a message are encoded in the order of their tags. Numbers that are zero, texts
//! and bytes that are empty, and messages that are not there are left out.

use crate::codec::{
    AnyModel, BlockIdModel, BlockModel, ConsensusModel, EventAttributeModel, EventModel,
    HeaderModel, PartSetHeaderModel, ResponseBeginBlockModel, ResponseDeliverTxModel,
    ResponseEndBlockModel, TimestampModel, TxBodyModel, TxModel, TxResultModel,
};
use crate::fields::{FieldModel, ValueModel};
use crate::schema::Kind;
use crate::{fields, wire};
use vstd::prelude::*;
use vstd::utf8::*;

verus! {

/// The encoding of a number: seven bits per byte, the least significant ones first. All bytes but
/// the last have the highest bit set.
pub open spec fn encoded_varint(number: nat) -> Seq<u8>
    decreases number,
{
    if number < 128 {
        seq![number as u8]
    } else {
        seq![(number % 128 + 128) as u8] + encoded_varint(number / 128)
    }
}

/// The encoding of a key.
pub open spec fn encoded_key(tag: u32, wire_type: u64) -> Seq<u8> {
    encoded_varint((tag * 8 + wire_type) as nat)
}

/// The encoding of bytes: their length, and the bytes.
pub open spec fn encoded_bytes(bytes: Seq<u8>) -> Seq<u8> {
    encoded_varint(bytes.len()) + bytes
}

/// The encoding type of a value.
pub open spec fn wire_type(value: ValueModel) -> u64 {
    match value {
        ValueModel::Number(_) => wire::VARINT,
        _ => wire::LENGTH_DELIMITED,
    }
}

/// The encoding of a value.
pub open spec fn encoded_value(value: ValueModel) -> Seq<u8>
    decreases value,
{
    match value {
        ValueModel::Number(number) => encoded_varint(number as nat),
        ValueModel::Text(text) => encoded_bytes(encode_utf8(text)),
        ValueModel::Bytes(bytes) => encoded_bytes(bytes),
        ValueModel::Message(content) => encoded_bytes(encoded_fields(content)),
    }
}

/// The encoding of a list of fields.
pub open spec fn encoded_fields(fields: Seq<FieldModel>) -> Seq<u8>
    decreases fields,
{
    if fields.len() == 0 {
        Seq::empty()
    } else {
        encoded_key(fields[0].tag, wire_type(fields[0].value)) + encoded_value(fields[0].value)
            + encoded_fields(fields.drop_first())
    }
}

/// The field for a number.
pub open spec fn number(tag: u32, number: u64) -> Seq<FieldModel> {
    if number == 0 {
        Seq::empty()
    } else {
        seq![FieldModel { tag, value: ValueModel::Number(number) }]
    }
}

/// The number that stands for a flag.
pub open spec fn flag_number(flag: bool) -> u64 {
    if flag {
        1
    } else {
        0
    }
}

/// The field for a text.
pub open spec fn text(tag: u32, text: Seq<char>) -> Seq<FieldModel> {
    if text.len() == 0 {
        Seq::empty()
    } else {
        seq![FieldModel { tag, value: ValueModel::Text(text) }]
    }
}

/// The field for bytes.
pub open spec fn bytes(tag: u32, bytes: Seq<u8>) -> Seq<FieldModel> {
    if bytes.len() == 0 {
        Seq::empty()
    } else {
        seq![FieldModel { tag, value: ValueModel::Bytes(bytes) }]
    }
}

/// The fields for any number of bytes or encoded messages.
pub open spec fn all_bytes(tag: u32, all: Seq<Seq<u8>>) -> Seq<FieldModel> {
    all.map_values(|bytes: Seq<u8>| FieldModel { tag, value: ValueModel::Bytes(bytes) })
}

/// The field for a message that stays encoded.
pub open spec fn encoded(tag: u32, message: Option<Seq<u8>>) -> Seq<FieldModel> {
    match message {
        Some(bytes) => seq![FieldModel { tag, value: ValueModel::Bytes(bytes) }],
        None => Seq::empty(),
    }
}

/// The field for a message.
pub open spec fn message(tag: u32, message: Option<Seq<FieldModel>>) -> Seq<FieldModel> {
    match message {
        Some(content) => seq![FieldModel { tag, value: ValueModel::Message(content) }],
        None => Seq::empty(),
    }
}

/// The fields for any number of messages.
pub open spec fn all_messages(tag: u32, all: Seq<Seq<FieldModel>>) -> Seq<FieldModel> {
    all.map_values(
        |content: Seq<FieldModel>| FieldModel { tag, value: ValueModel::Message(content) },
    )
}

/// The fields of a typed payload, by their tags.
pub open spec fn any_pieces(value: AnyModel) -> Seq<Seq<FieldModel>> {
    seq![
        text(1, value.type_url),
        bytes(2, value.value),
    ]
}

/// The fields of a typed payload.
pub open spec fn any_fields(value: AnyModel) -> Seq<FieldModel> {
    any_pieces(value).flatten()
}

/// The fields of an attribute of an event, by their tags.
pub open spec fn event_attribute_pieces(value: EventAttributeModel) -> Seq<Seq<FieldModel>> {
    seq![
        text(1, value.key),
        text(2, value.value),
        number(3, flag_number(value.index)),
    ]
}

/// The fields of an attribute of an event.
pub open spec fn event_attribute_fields(value: EventAttributeModel) -> Seq<FieldModel> {
    event_attribute_pieces(value).flatten()
}

/// The fields of an event, by their tags.
pub open spec fn event_pieces(value: EventModel) -> Seq<Seq<FieldModel>> {
    seq![
        text(1, value.event_type),
        all_messages(
            2,
            value.attributes.map_values(
                |content: EventAttributeModel| event_attribute_fields(content),
            ),
        ),
    ]
}

/// The fields of an event.
pub open spec fn event_fields(value: EventModel) -> Seq<FieldModel> {
    event_pieces(value).flatten()
}

/// The fields of protocol versions, by their tags.
pub open spec fn consensus_pieces(value: ConsensusModel) -> Seq<Seq<FieldModel>> {
    seq![
        number(1, value.block),
        number(2, value.app),
    ]
}

/// The fields of protocol versions.
pub open spec fn consensus_fields(value: ConsensusModel) -> Seq<FieldModel> {
    consensus_pieces(value).flatten()
}

/// The fields of a point in time, by their tags.
pub open spec fn timestamp_pieces(value: TimestampModel) -> Seq<Seq<FieldModel>> {
    seq![
        number(1, value.seconds as u64),
        number(2, value.nanos as u64),
    ]
}

/// The fields of a point in time.
pub open spec fn timestamp_fields(value: TimestampModel) -> Seq<FieldModel> {
    timestamp_pieces(value).flatten()
}

/// The fields of a part set header, by their tags.
pub open spec fn part_set_header_pieces(value: PartSetHeaderModel) -> Seq<Seq<FieldModel>> {
    seq![
        number(1, value.total as u64),
        bytes(2, value.hash),
    ]
}

/// The fields of a part set header.
pub open spec fn part_set_header_fields(value: PartSetHeaderModel) -> Seq<FieldModel> {
    part_set_header_pieces(value).flatten()
}

/// The fields of a block id, by their tags.
pub open spec fn block_id_pieces(value: BlockIdModel) -> Seq<Seq<FieldModel>> {
    seq![
        bytes(1, value.hash),
        message(
            2,
            match value.part_set_header {
                Some(content) => Some(part_set_header_fields(content)),
                None => None,
            },
        ),
    ]
}

/// The fields of a block id.
pub open spec fn block_id_fields(value: BlockIdModel) -> Seq<FieldModel> {
    block_id_pieces(value).flatten()
}

/// The fields of a block header, by their tags.
pub open spec fn header_pieces(value: HeaderModel) -> Seq<Seq<FieldModel>> {
    seq![
        message(
            1,
            match value.version {
                Some(content) => Some(consensus_fields(content)),
                None => None,
            },
        ),
        text(2, value.chain_id),
        number(3, value.height),
        message(
            4,
            match value.time {
                Some(content) => Some(timestamp_fields(content)),
                None => None,
            },
        ),
        message(
            5,
            match value.last_block_id {
                Some(content) => Some(block_id_fields(content)),
                None => None,
            },
        ),
        bytes(6, value.last_commit_hash),
        bytes(7, value.data_hash),
        bytes(8, value.validators_hash),
        bytes(9, value.next_validators_hash),
        bytes(10, value.consensus_hash),
        bytes(11, value.app_hash),
        bytes(12, value.last_results_hash),
        bytes(13, value.evidence_hash),
        bytes(14, value.proposer_address),
        bytes(15, value.hash),
    ]
}

/// The fields of a block header.
pub open spec fn header_fields(value: HeaderModel) -> Seq<FieldModel> {
    header_pieces(value).flatten()
}

/// The fields of a begin-block result, by their tags.
pub open spec fn response_begin_block_pieces(value: ResponseBeginBlockModel) -> Seq<
    Seq<FieldModel>,
> {
    seq![
        all_messages(
            1,
            value.events.map_values(|content: EventModel| event_fields(content)),
        ),
    ]
}

/// The fields of a begin-block result.
pub open spec fn response_begin_block_fields(value: ResponseBeginBlockModel) -> Seq<FieldModel> {
    response_begin_block_pieces(value).flatten()
}

/// The fields of an end-block result, by their tags.
pub open spec fn response_end_block_pieces(value: ResponseEndBlockModel) -> Seq<Seq<FieldModel>> {
    seq![
        all_bytes(1, value.validator_updates),
        encoded(2, value.consensus_param_updates),
        all_messages(
            3,
            value.events.map_values(|content: EventModel| event_fields(content)),
        ),
    ]
}

/// The fields of an end-block result.
pub open spec fn response_end_block_fields(value: ResponseEndBlockModel) -> Seq<FieldModel> {
    response_end_block_pieces(value).flatten()
}

/// The fields of the body of a transaction, by their tags.
pub open spec fn tx_body_pieces(value: TxBodyModel) -> Seq<Seq<FieldModel>> {
    seq![
        all_messages(
            1,
            value.messages.map_values(|content: AnyModel| any_fields(content)),
        ),
        text(2, value.memo),
        number(3, value.timeout_height),
        all_messages(
            1023,
            value.extension_options.map_values(|content: AnyModel| any_fields(content)),
        ),
        all_messages(
            2047,
            value.non_critical_extension_options.map_values(
                |content: AnyModel| any_fields(content),
            ),
        ),
    ]
}

/// The fields of the body of a transaction.
pub open spec fn tx_body_fields(value: TxBodyModel) -> Seq<FieldModel> {
    tx_body_pieces(value).flatten()
}

/// The fields of a transaction, by their tags.
pub open spec fn tx_pieces(value: TxModel) -> Seq<Seq<FieldModel>> {
    seq![
        message(
            1,
            match value.body {
                Some(content) => Some(tx_body_fields(content)),
                None => None,
            },
        ),
        encoded(2, value.auth_info),
        all_bytes(3, value.signatures),
    ]
}

/// The fields of a transaction.
pub open spec fn tx_fields(value: TxModel) -> Seq<FieldModel> {
    tx_pieces(value).flatten()
}

/// The fields of the outcome of a transaction, by their tags.
pub open spec fn response_deliver_tx_pieces(value: ResponseDeliverTxModel) -> Seq<Seq<FieldModel>> {
    seq![
        number(1, value.code as u64),
        bytes(2, value.data),
        text(3, value.log),
        text(4, value.info),
        number(5, value.gas_wanted as u64),
        number(6, value.gas_used as u64),
        all_messages(
            7,
            value.events.map_values(|content: EventModel| event_fields(content)),
        ),
        text(8, value.codespace),
    ]
}

/// The fields of the outcome of a transaction.
pub open spec fn response_deliver_tx_fields(value: ResponseDeliverTxModel) -> Seq<FieldModel> {
    response_deliver_tx_pieces(value).flatten()
}

/// The fields of a transaction with its outcome, by their tags.
pub open spec fn tx_result_pieces(value: TxResultModel) -> Seq<Seq<FieldModel>> {
    seq![
        number(1, value.height),
        number(2, value.index as u64),
        message(
            3,
            match value.tx {
                Some(content) => Some(tx_fields(content)),
                None => None,
            },
        ),
        message(
            4,
            match value.result {
                Some(content) => Some(response_deliver_tx_fields(content)),
                None => None,
            },
        ),
        bytes(5, value.hash),
    ]
}

/// The fields of a transaction with its outcome.
pub open spec fn tx_result_fields(value: TxResultModel) -> Seq<FieldModel> {
    tx_result_pieces(value).flatten()
}

/// The fields of a block, by their tags.
pub open spec fn block_pieces(value: BlockModel) -> Seq<Seq<FieldModel>> {
    seq![
        message(
            1,
            match value.header {
                Some(content) => Some(header_fields(content)),
                None => None,
            },
        ),
        encoded(2, value.evidence),
        encoded(3, value.last_commit),
        message(
            4,
            match value.result_begin_block {
                Some(content) => Some(response_begin_block_fields(content)),
                None => None,
            },
        ),
        message(
            5,
            match value.result_end_block {
                Some(content) => Some(response_end_block_fields(content)),
                None => None,
            },
        ),
        all_messages(
            7,
            value.transactions.map_values(|content: TxResultModel| tx_result_fields(content)),
        ),
        all_bytes(8, value.validator_updates),
    ]
}

/// The fields of a block.
pub open spec fn block_fields(value: BlockModel) -> Seq<FieldModel> {
    block_pieces(value).flatten()
}

/// The encoding of a block.
pub open spec fn encoded_block(block: BlockModel) -> Seq<u8> {
    encoded_fields(block_fields(block))
}

/// Bytes are an encoded message of the given kind, in which messages and groups are nested to the
/// given depth at most.
pub open spec fn is_message(kind: Kind, bytes: Seq<u8>, depth: nat) -> bool {
    fields::fields(kind, bytes, 0, depth) is Ok
}

/// Each of the bytes are an encoded message.
pub open spec fn are_messages(kind: Kind, all: Seq<Seq<u8>>, depth: nat) -> bool {
    forall|i: int| 0 <= i < all.len() ==> is_message(kind, #[trigger] all[i], depth)
}

/// The bytes are an encoded message, if there are any.
pub open spec fn may_be_message(kind: Kind, bytes: Option<Seq<u8>>, depth: nat) -> bool {
    match bytes {
        Some(bytes) => is_message(kind, bytes, depth),
        None => true,
    }
}

/// The parts of an end-block result that stay encoded are messages.
pub open spec fn end_block_is_encodable(end: ResponseEndBlockModel, depth: nat) -> bool {
    &&& are_messages(Kind::ValidatorUpdate, end.validator_updates, depth)
    &&& may_be_message(Kind::ConsensusParams, end.consensus_param_updates, depth)
}

/// The part of a transaction that stays encoded is a message.
pub open spec fn tx_is_encodable(result: TxResultModel, depth: nat) -> bool {
    match result.tx {
        Some(tx) => may_be_message(Kind::AuthInfo, tx.auth_info, depth),
        None => true,
    }
}

/// The parts of a block that stay encoded are messages.
pub open spec fn parts_are_messages(block: BlockModel) -> bool {
    let limit = wire::RECURSION_LIMIT as int;
    &&& may_be_message(Kind::EvidenceList, block.evidence, (limit - 1) as nat)
    &&& may_be_message(Kind::Commit, block.last_commit, (limit - 1) as nat)
    &&& are_messages(Kind::Validator, block.validator_updates, (limit - 1) as nat)
    &&& block.result_end_block matches Some(end) ==> end_block_is_encodable(
        end,
        (limit - 2) as nat,
    )
    &&& forall|i: int|
        0 <= i < block.transactions.len() ==> tx_is_encodable(
            #[trigger] block.transactions[i],
            (limit - 3) as nat,
        )
}

/// What has to hold of a block to be encoded: the parts of it that stay encoded are messages, and
/// the length of the encoding fits in 64 bits.
pub open spec fn is_encodable(block: BlockModel) -> bool {
    parts_are_messages(block) && encoded_block(block).len() <= u64::MAX
}

} // verus!
