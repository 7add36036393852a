//! What the fields of each kind of messages are on the wire.
//!
//! A message is a row of fields. The laws say for each kind which tags are fields of it, what
//! bytes such a field is read from, and what is read. All other tags are passed over.

use crate::codec::Block;
use crate::fields::{
    read_fields, Failure, FailureModel, Field, FieldModel, Location, ValueModel,
};
use crate::schema::{
    find_field_name, find_field_type, find_message_name, FieldType, Kind,
};
use crate::{decode, encode, fields, lookup, parts, round_trip, schema, wire};
use prost::DecodeError;
use vstd::prelude::*;
use vstd::utf8::*;

verus! {

/// The bytes are a message of the kind that holds a list of fields.
pub open spec fn reads_as(kind: Kind, bytes: Seq<u8>, depth: nat, list: Seq<FieldModel>) -> bool {
    fields::fields(kind, bytes, 0, depth) == Ok::<Seq<FieldModel>, FailureModel>(list)
}

/// The bytes are not a message of the kind.
pub open spec fn is_refused(kind: Kind, bytes: Seq<u8>, depth: nat) -> bool {
    fields::fields(kind, bytes, 0, depth) is Err
}

/// The bytes are not a message of the kind. The error comes up in the fields of a path.
pub open spec fn fails_at(kind: Kind, bytes: Seq<u8>, depth: nat, path: Seq<Location>) -> bool {
    is_refused(kind, bytes, depth) && fields::fields(kind, bytes, 0, depth)->Err_0.path == path
}

/// The bytes of a field with a number.
pub open spec fn number_bytes(tag: u32, number: u64) -> Seq<u8> {
    encode::encoded_key(tag, 0) + encode::encoded_varint(number as nat)
}

/// The bytes of a field with bytes, a text or a message.
pub open spec fn delimited_bytes(tag: u32, bytes: Seq<u8>) -> Seq<u8> {
    encode::encoded_key(tag, 2) + encode::encoded_bytes(bytes)
}

/// A field is refused unless it is encoded in the given way.
pub open spec fn needs_wire_type(kind: Kind, tag: u32, expected: u64) -> bool {
    forall|wire_type: u64, value: Seq<u8>, depth: nat|
        wire_type <= 5 && wire_type != expected ==> #[trigger] fails_at(
            kind,
            encode::encoded_key(tag, wire_type) + value,
            depth,
            seq![Location { kind, tag }],
        )
}

/// The field holds a number.
pub open spec fn holds_number(kind: Kind, tag: u32) -> bool {
    &&& needs_wire_type(kind, tag, 0)
    &&& forall|number: u64, depth: nat| #[trigger]
        reads_as(
            kind,
            number_bytes(tag, number),
            depth,
            seq![FieldModel { tag, value: ValueModel::Number(number) }],
        )
}

/// The field holds bytes.
pub open spec fn holds_bytes(kind: Kind, tag: u32) -> bool {
    &&& needs_wire_type(kind, tag, 2)
    &&& forall|bytes: Seq<u8>, depth: nat|
        bytes.len() <= u64::MAX ==> #[trigger] reads_as(
            kind,
            delimited_bytes(tag, bytes),
            depth,
            seq![FieldModel { tag, value: ValueModel::Bytes(bytes) }],
        )
}

/// The field holds a text, which is encoded in UTF-8.
pub open spec fn holds_text(kind: Kind, tag: u32) -> bool {
    &&& needs_wire_type(kind, tag, 2)
    &&& forall|text: Seq<char>, depth: nat|
        encode_utf8(text).len() <= u64::MAX ==> #[trigger] reads_as(
            kind,
            delimited_bytes(tag, encode_utf8(text)),
            depth,
            seq![FieldModel { tag, value: ValueModel::Text(text) }],
        )
    &&& forall|bytes: Seq<u8>, depth: nat|
        bytes.len() <= u64::MAX && !valid_utf8(bytes) ==> #[trigger] fails_at(
            kind,
            delimited_bytes(tag, bytes),
            depth,
            seq![Location { kind, tag }],
        )
}

/// What bytes that hold a message of some kind are read as, one level further out.
pub open spec fn holds_nested(kind: Kind, tag: u32, inner: Kind, keeps_bytes: bool) -> bool {
    &&& needs_wire_type(kind, tag, 2)
    &&& forall|bytes: Seq<u8>, depth: nat, list: Seq<FieldModel>|
        bytes.len() <= u64::MAX && #[trigger] reads_as(inner, bytes, depth, list) ==> reads_as(
            kind,
            delimited_bytes(tag, bytes),
            depth + 1,
            seq![
                FieldModel {
                    tag,
                    value: if keeps_bytes {
                        ValueModel::Bytes(bytes)
                    } else {
                        ValueModel::Message(list)
                    },
                },
            ],
        )
    &&& forall|bytes: Seq<u8>, depth: nat, path: Seq<Location>|
        bytes.len() <= u64::MAX && #[trigger] fails_at(inner, bytes, depth, path) ==> fails_at(
            kind,
            delimited_bytes(tag, bytes),
            depth + 1,
            path.push(Location { kind, tag }),
        )
    &&& forall|bytes: Seq<u8>, behind: Seq<u8>, depth: nat|
        #![trigger is_refused(inner, bytes, depth), delimited_bytes(tag, bytes) + behind]
        bytes.len() <= u64::MAX && is_refused(inner, bytes, depth) ==> is_refused(
            kind,
            delimited_bytes(tag, bytes) + behind,
            depth + 1,
        )
    &&& forall|bytes: Seq<u8>| #[trigger]
        fails_at(kind, delimited_bytes(tag, bytes), 0, seq![Location { kind, tag }])
}

/// The field holds a message of the given kind.
pub open spec fn holds_message(kind: Kind, tag: u32, inner: Kind) -> bool {
    holds_nested(kind, tag, inner, false)
}

/// The field holds a message of the given kind, the bytes of which are kept.
pub open spec fn holds_encoded(kind: Kind, tag: u32, inner: Kind) -> bool {
    holds_nested(kind, tag, inner, true)
}

/// Fields with the tag are passed over, whatever value they have.
pub open spec fn passes_over(kind: Kind, tag: u32) -> bool {
    forall|wire_type: u64, value: Seq<u8>, depth: nat|
        wire_type <= 5 ==> match wire::skipped(wire_type, tag, value, depth) {
            Some(behind) => #[trigger] fields::fields(
                kind,
                encode::encoded_key(tag, wire_type) + value,
                0,
                depth,
            ) == fields::fields(kind, behind, 0, depth),
            None => is_refused(kind, encode::encoded_key(tag, wire_type) + value, depth),
        }
}

/// The names that errors are told with.
pub open spec fn is_named(
    kind: Kind,
    message: &'static str,
    tag: u32,
    field: &'static str,
) -> bool {
    schema::message_name(kind) == message && schema::field_name(kind, tag) == field
}

proof fn lemma_needs_wire_type(kind: Kind, tag: u32, expected: u64)
    requires
        1 <= tag <= 0x1fff_ffff,
        schema::field_type(kind, tag) != FieldType::Unknown,
        expected == if schema::field_type(kind, tag) == FieldType::Number {
            0u64
        } else {
            2u64
        },
    ensures
        needs_wire_type(kind, tag, expected),
{
    assert forall|wire_type: u64, value: Seq<u8>, depth: nat|
        wire_type <= 5 && wire_type != expected implies #[trigger] fails_at(
        kind,
        encode::encoded_key(tag, wire_type) + value,
        depth,
        seq![Location { kind, tag }],
    ) by {
        round_trip::lemma_key(tag, wire_type, value);
    }
}

proof fn lemma_number_field(kind: Kind, tag: u32)
    requires
        1 <= tag <= 0x1fff_ffff,
        schema::field_type(kind, tag) == FieldType::Number,
    ensures
        holds_number(kind, tag),
{
    lemma_needs_wire_type(kind, tag, 0);
    assert forall|number: u64, depth: nat| #[trigger]
        reads_as(
            kind,
            number_bytes(tag, number),
            depth,
            seq![FieldModel { tag, value: ValueModel::Number(number) }],
        ) by {
        let value = encode::encoded_varint(number as nat);
        let none = Seq::<u8>::empty();
        round_trip::lemma_key(tag, 0, value);
        round_trip::lemma_varint(number, none);
        assert(value + none =~= value);
        assert(fields::fields(kind, none, 0, depth) == Ok::<Seq<FieldModel>, FailureModel>(
            Seq::empty(),
        ));
        let field = FieldModel { tag, value: ValueModel::Number(number) };
        assert(seq![field] + Seq::<FieldModel>::empty() =~= seq![field]);
    }
}

proof fn lemma_delimited_value(tag: u32, bytes: Seq<u8>)
    requires
        1 <= tag <= 0x1fff_ffff,
        bytes.len() <= u64::MAX,
    ensures
        wire::key(delimited_bytes(tag, bytes)) == Some((tag, 2u64, encode::encoded_bytes(bytes))),
        wire::delimited(encode::encoded_bytes(bytes)) == Some((bytes, Seq::<u8>::empty())),
        delimited_bytes(tag, bytes).len() > 0,
{
    let none = Seq::<u8>::empty();
    round_trip::lemma_key(tag, 2, encode::encoded_bytes(bytes));
    round_trip::lemma_bytes(bytes, none);
    assert(encode::encoded_bytes(bytes) + none =~= encode::encoded_bytes(bytes));
}

proof fn lemma_end(kind: Kind, depth: nat, field: FieldModel)
    ensures
        fields::fields(kind, Seq::empty(), 0, depth) == Ok::<Seq<FieldModel>, FailureModel>(
            Seq::empty(),
        ),
        seq![field] + Seq::<FieldModel>::empty() == seq![field],
{
    assert(seq![field] + Seq::<FieldModel>::empty() =~= seq![field]);
}

proof fn lemma_bytes_field(kind: Kind, tag: u32)
    requires
        1 <= tag <= 0x1fff_ffff,
        schema::field_type(kind, tag) == FieldType::Bytes,
    ensures
        holds_bytes(kind, tag),
{
    lemma_needs_wire_type(kind, tag, 2);
    assert forall|bytes: Seq<u8>, depth: nat|
        bytes.len() <= u64::MAX implies #[trigger] reads_as(
        kind,
        delimited_bytes(tag, bytes),
        depth,
        seq![FieldModel { tag, value: ValueModel::Bytes(bytes) }],
    ) by {
        lemma_delimited_value(tag, bytes);
        lemma_end(kind, depth, FieldModel { tag, value: ValueModel::Bytes(bytes) });
    }
}

proof fn lemma_text_field(kind: Kind, tag: u32)
    requires
        1 <= tag <= 0x1fff_ffff,
        schema::field_type(kind, tag) == FieldType::Text,
    ensures
        holds_text(kind, tag),
{
    lemma_needs_wire_type(kind, tag, 2);
    assert forall|text: Seq<char>, depth: nat|
        encode_utf8(text).len() <= u64::MAX implies #[trigger] reads_as(
        kind,
        delimited_bytes(tag, encode_utf8(text)),
        depth,
        seq![FieldModel { tag, value: ValueModel::Text(text) }],
    ) by {
        lemma_delimited_value(tag, encode_utf8(text));
        encode_utf8_valid_utf8(text);
        encode_utf8_decode_utf8(text);
        lemma_end(kind, depth, FieldModel { tag, value: ValueModel::Text(text) });
    }
    assert forall|bytes: Seq<u8>, depth: nat|
        bytes.len() <= u64::MAX && !valid_utf8(bytes) implies #[trigger] fails_at(
        kind,
        delimited_bytes(tag, bytes),
        depth,
        seq![Location { kind, tag }],
    ) by {
        lemma_delimited_value(tag, bytes);
    }
}

proof fn lemma_nested_field(kind: Kind, tag: u32, inner: Kind, keeps_bytes: bool)
    requires
        1 <= tag <= 0x1fff_ffff,
        schema::field_type(kind, tag) == if keeps_bytes {
            FieldType::Encoded(inner)
        } else {
            FieldType::Message(inner)
        },
    ensures
        holds_nested(kind, tag, inner, keeps_bytes),
{
    let none = Seq::<u8>::empty();
    lemma_needs_wire_type(kind, tag, 2);
    assert forall|bytes: Seq<u8>, depth: nat, list: Seq<FieldModel>|
        bytes.len() <= u64::MAX && #[trigger] reads_as(inner, bytes, depth, list) implies reads_as(
        kind,
        delimited_bytes(tag, bytes),
        depth + 1,
        seq![
            FieldModel {
                tag,
                value: if keeps_bytes {
                    ValueModel::Bytes(bytes)
                } else {
                    ValueModel::Message(list)
                },
            },
        ],
    ) by {
        lemma_delimited_value(tag, bytes);
        assert(bytes + none =~= bytes);
        let value = if keeps_bytes {
            ValueModel::Bytes(bytes)
        } else {
            ValueModel::Message(list)
        };
        lemma_end(kind, depth + 1, FieldModel { tag, value });
    }
    assert forall|bytes: Seq<u8>, depth: nat, path: Seq<Location>|
        bytes.len() <= u64::MAX && #[trigger] fails_at(inner, bytes, depth, path) implies fails_at(
        kind,
        delimited_bytes(tag, bytes),
        depth + 1,
        path.push(Location { kind, tag }),
    ) by {
        lemma_delimited_value(tag, bytes);
        assert(bytes + none =~= bytes);
    }
    assert forall|bytes: Seq<u8>, behind: Seq<u8>, depth: nat|
        #![trigger is_refused(inner, bytes, depth), delimited_bytes(tag, bytes) + behind]
        bytes.len() <= u64::MAX && is_refused(inner, bytes, depth) implies is_refused(
        kind,
        delimited_bytes(tag, bytes) + behind,
        depth + 1,
    ) by {
        round_trip::lemma_key(tag, 2, encode::encoded_bytes(bytes) + behind);
        round_trip::lemma_bytes(bytes, behind);
        assert(delimited_bytes(tag, bytes) + behind =~= encode::encoded_key(tag, 2) + (
        encode::encoded_bytes(bytes) + behind));
        if fields::fields(inner, bytes + behind, behind.len(), depth) is Ok {
            parts::lemma_fields_end(inner, bytes, 0, depth, behind);
        }
    }
    assert forall|bytes: Seq<u8>| #[trigger]
        fails_at(kind, delimited_bytes(tag, bytes), 0, seq![Location { kind, tag }]) by {
        round_trip::lemma_key(tag, 2, encode::encoded_bytes(bytes));
    }
}

proof fn lemma_unknown_field(kind: Kind, tag: u32)
    requires
        1 <= tag <= 0x1fff_ffff,
        schema::field_type(kind, tag) == FieldType::Unknown,
    ensures
        passes_over(kind, tag),
{
    assert forall|wire_type: u64, value: Seq<u8>, depth: nat|
        wire_type <= 5 implies match wire::skipped(
        wire_type,
        tag,
        value,
        depth,
    ) {
        Some(behind) => #[trigger] fields::fields(
            kind,
            encode::encoded_key(tag, wire_type) + value,
            0,
            depth,
        ) == fields::fields(kind, behind, 0, depth),
        None => is_refused(kind, encode::encoded_key(tag, wire_type) + value, depth),
    } by {
        round_trip::lemma_key(tag, wire_type, value);
    }
}

/// The fields of messages of the kind `Block`.
pub proof fn law_block_fields()
    ensures
        holds_message(Kind::Block, 1, Kind::Header),
        holds_encoded(Kind::Block, 2, Kind::EvidenceList),
        holds_encoded(Kind::Block, 3, Kind::Commit),
        holds_message(Kind::Block, 4, Kind::ResponseBeginBlock),
        holds_message(Kind::Block, 5, Kind::ResponseEndBlock),
        holds_message(Kind::Block, 7, Kind::TxResult),
        holds_encoded(Kind::Block, 8, Kind::Validator),
        is_named(Kind::Block, "Block", 1, "header"),
        is_named(Kind::Block, "Block", 2, "evidence"),
        is_named(Kind::Block, "Block", 3, "last_commit"),
        is_named(Kind::Block, "Block", 4, "result_begin_block"),
        is_named(Kind::Block, "Block", 5, "result_end_block"),
        is_named(Kind::Block, "Block", 7, "transactions"),
        is_named(Kind::Block, "Block", 8, "validator_updates"),
        forall|tag: u32|
            1 <= tag <= 0x1fff_ffff && !(1 <= tag <= 5 || 7 <= tag <= 8) ==> #[trigger] passes_over(
                Kind::Block,
                tag,
            ),
{
    reveal(schema::field);
    lemma_nested_field(Kind::Block, 1, Kind::Header, false);
    lemma_nested_field(Kind::Block, 2, Kind::EvidenceList, true);
    lemma_nested_field(Kind::Block, 3, Kind::Commit, true);
    lemma_nested_field(Kind::Block, 4, Kind::ResponseBeginBlock, false);
    lemma_nested_field(Kind::Block, 5, Kind::ResponseEndBlock, false);
    lemma_nested_field(Kind::Block, 7, Kind::TxResult, false);
    lemma_nested_field(Kind::Block, 8, Kind::Validator, true);
    assert forall|tag: u32|
        1 <= tag <= 0x1fff_ffff && !(1 <= tag <= 5 || 7 <= tag <= 8) implies #[trigger] passes_over(
        Kind::Block,
        tag,
    ) by {
        lemma_unknown_field(Kind::Block, tag);
    }
}

/// The fields of messages of the kind `Header`.
pub proof fn law_header_fields()
    ensures
        holds_message(Kind::Header, 1, Kind::Consensus),
        holds_text(Kind::Header, 2),
        holds_number(Kind::Header, 3),
        holds_message(Kind::Header, 4, Kind::Timestamp),
        holds_message(Kind::Header, 5, Kind::BlockId),
        holds_bytes(Kind::Header, 6),
        holds_bytes(Kind::Header, 7),
        holds_bytes(Kind::Header, 8),
        holds_bytes(Kind::Header, 9),
        holds_bytes(Kind::Header, 10),
        holds_bytes(Kind::Header, 11),
        holds_bytes(Kind::Header, 12),
        holds_bytes(Kind::Header, 13),
        holds_bytes(Kind::Header, 14),
        holds_bytes(Kind::Header, 15),
        is_named(Kind::Header, "Header", 1, "version"),
        is_named(Kind::Header, "Header", 2, "chain_id"),
        is_named(Kind::Header, "Header", 3, "height"),
        is_named(Kind::Header, "Header", 4, "time"),
        is_named(Kind::Header, "Header", 5, "last_block_id"),
        is_named(Kind::Header, "Header", 6, "last_commit_hash"),
        is_named(Kind::Header, "Header", 7, "data_hash"),
        is_named(Kind::Header, "Header", 8, "validators_hash"),
        is_named(Kind::Header, "Header", 9, "next_validators_hash"),
        is_named(Kind::Header, "Header", 10, "consensus_hash"),
        is_named(Kind::Header, "Header", 11, "app_hash"),
        is_named(Kind::Header, "Header", 12, "last_results_hash"),
        is_named(Kind::Header, "Header", 13, "evidence_hash"),
        is_named(Kind::Header, "Header", 14, "proposer_address"),
        is_named(Kind::Header, "Header", 15, "hash"),
        forall|tag: u32|
            1 <= tag <= 0x1fff_ffff && !(1 <= tag <= 15) ==> #[trigger] passes_over(
                Kind::Header,
                tag,
            ),
{
    reveal(schema::field);
    lemma_nested_field(Kind::Header, 1, Kind::Consensus, false);
    lemma_text_field(Kind::Header, 2);
    lemma_number_field(Kind::Header, 3);
    lemma_nested_field(Kind::Header, 4, Kind::Timestamp, false);
    lemma_nested_field(Kind::Header, 5, Kind::BlockId, false);
    lemma_bytes_field(Kind::Header, 6);
    lemma_bytes_field(Kind::Header, 7);
    lemma_bytes_field(Kind::Header, 8);
    lemma_bytes_field(Kind::Header, 9);
    lemma_bytes_field(Kind::Header, 10);
    lemma_bytes_field(Kind::Header, 11);
    lemma_bytes_field(Kind::Header, 12);
    lemma_bytes_field(Kind::Header, 13);
    lemma_bytes_field(Kind::Header, 14);
    lemma_bytes_field(Kind::Header, 15);
    assert forall|tag: u32|
        1 <= tag <= 0x1fff_ffff && !(1 <= tag <= 15) implies #[trigger] passes_over(
        Kind::Header,
        tag,
    ) by {
        lemma_unknown_field(Kind::Header, tag);
    }
}

/// The fields of messages of the kind `Consensus`.
pub proof fn law_consensus_fields()
    ensures
        holds_number(Kind::Consensus, 1),
        holds_number(Kind::Consensus, 2),
        is_named(Kind::Consensus, "Consensus", 1, "block"),
        is_named(Kind::Consensus, "Consensus", 2, "app"),
        forall|tag: u32|
            1 <= tag <= 0x1fff_ffff && !(1 <= tag <= 2) ==> #[trigger] passes_over(
                Kind::Consensus,
                tag,
            ),
{
    reveal(schema::field);
    lemma_number_field(Kind::Consensus, 1);
    lemma_number_field(Kind::Consensus, 2);
    assert forall|tag: u32|
        1 <= tag <= 0x1fff_ffff && !(1 <= tag <= 2) implies #[trigger] passes_over(
        Kind::Consensus,
        tag,
    ) by {
        lemma_unknown_field(Kind::Consensus, tag);
    }
}

/// The fields of messages of the kind `Timestamp`.
pub proof fn law_timestamp_fields()
    ensures
        holds_number(Kind::Timestamp, 1),
        holds_number(Kind::Timestamp, 2),
        is_named(Kind::Timestamp, "Timestamp", 1, "seconds"),
        is_named(Kind::Timestamp, "Timestamp", 2, "nanos"),
        forall|tag: u32|
            1 <= tag <= 0x1fff_ffff && !(1 <= tag <= 2) ==> #[trigger] passes_over(
                Kind::Timestamp,
                tag,
            ),
{
    reveal(schema::field);
    lemma_number_field(Kind::Timestamp, 1);
    lemma_number_field(Kind::Timestamp, 2);
    assert forall|tag: u32|
        1 <= tag <= 0x1fff_ffff && !(1 <= tag <= 2) implies #[trigger] passes_over(
        Kind::Timestamp,
        tag,
    ) by {
        lemma_unknown_field(Kind::Timestamp, tag);
    }
}

/// The fields of messages of the kind `BlockId`.
pub proof fn law_block_id_fields()
    ensures
        holds_bytes(Kind::BlockId, 1),
        holds_message(Kind::BlockId, 2, Kind::PartSetHeader),
        is_named(Kind::BlockId, "BlockId", 1, "hash"),
        is_named(Kind::BlockId, "BlockId", 2, "part_set_header"),
        forall|tag: u32|
            1 <= tag <= 0x1fff_ffff && !(1 <= tag <= 2) ==> #[trigger] passes_over(
                Kind::BlockId,
                tag,
            ),
{
    reveal(schema::field);
    lemma_bytes_field(Kind::BlockId, 1);
    lemma_nested_field(Kind::BlockId, 2, Kind::PartSetHeader, false);
    assert forall|tag: u32|
        1 <= tag <= 0x1fff_ffff && !(1 <= tag <= 2) implies #[trigger] passes_over(
        Kind::BlockId,
        tag,
    ) by {
        lemma_unknown_field(Kind::BlockId, tag);
    }
}

/// The fields of messages of the kind `PartSetHeader`.
pub proof fn law_part_set_header_fields()
    ensures
        holds_number(Kind::PartSetHeader, 1),
        holds_bytes(Kind::PartSetHeader, 2),
        is_named(Kind::PartSetHeader, "PartSetHeader", 1, "total"),
        is_named(Kind::PartSetHeader, "PartSetHeader", 2, "hash"),
        forall|tag: u32|
            1 <= tag <= 0x1fff_ffff && !(1 <= tag <= 2) ==> #[trigger] passes_over(
                Kind::PartSetHeader,
                tag,
            ),
{
    reveal(schema::field);
    lemma_number_field(Kind::PartSetHeader, 1);
    lemma_bytes_field(Kind::PartSetHeader, 2);
    assert forall|tag: u32|
        1 <= tag <= 0x1fff_ffff && !(1 <= tag <= 2) implies #[trigger] passes_over(
        Kind::PartSetHeader,
        tag,
    ) by {
        lemma_unknown_field(Kind::PartSetHeader, tag);
    }
}

/// The fields of messages of the kind `ResponseBeginBlock`.
pub proof fn law_response_begin_block_fields()
    ensures
        holds_message(Kind::ResponseBeginBlock, 1, Kind::Event),
        is_named(Kind::ResponseBeginBlock, "ResponseBeginBlock", 1, "events"),
        forall|tag: u32|
            1 <= tag <= 0x1fff_ffff && !(tag == 1) ==> #[trigger] passes_over(
                Kind::ResponseBeginBlock,
                tag,
            ),
{
    reveal(schema::field);
    lemma_nested_field(Kind::ResponseBeginBlock, 1, Kind::Event, false);
    assert forall|tag: u32|
        1 <= tag <= 0x1fff_ffff && !(tag == 1) implies #[trigger] passes_over(
        Kind::ResponseBeginBlock,
        tag,
    ) by {
        lemma_unknown_field(Kind::ResponseBeginBlock, tag);
    }
}

/// The fields of messages of the kind `ResponseEndBlock`.
pub proof fn law_response_end_block_fields()
    ensures
        holds_encoded(Kind::ResponseEndBlock, 1, Kind::ValidatorUpdate),
        holds_encoded(Kind::ResponseEndBlock, 2, Kind::ConsensusParams),
        holds_message(Kind::ResponseEndBlock, 3, Kind::Event),
        is_named(Kind::ResponseEndBlock, "ResponseEndBlock", 1, "validator_updates"),
        is_named(Kind::ResponseEndBlock, "ResponseEndBlock", 2, "consensus_param_updates"),
        is_named(Kind::ResponseEndBlock, "ResponseEndBlock", 3, "events"),
        forall|tag: u32|
            1 <= tag <= 0x1fff_ffff && !(1 <= tag <= 3) ==> #[trigger] passes_over(
                Kind::ResponseEndBlock,
                tag,
            ),
{
    reveal(schema::field);
    lemma_nested_field(Kind::ResponseEndBlock, 1, Kind::ValidatorUpdate, true);
    lemma_nested_field(Kind::ResponseEndBlock, 2, Kind::ConsensusParams, true);
    lemma_nested_field(Kind::ResponseEndBlock, 3, Kind::Event, false);
    assert forall|tag: u32|
        1 <= tag <= 0x1fff_ffff && !(1 <= tag <= 3) implies #[trigger] passes_over(
        Kind::ResponseEndBlock,
        tag,
    ) by {
        lemma_unknown_field(Kind::ResponseEndBlock, tag);
    }
}

/// The fields of messages of the kind `Event`.
pub proof fn law_event_fields()
    ensures
        holds_text(Kind::Event, 1),
        holds_message(Kind::Event, 2, Kind::EventAttribute),
        is_named(Kind::Event, "Event", 1, "event_type"),
        is_named(Kind::Event, "Event", 2, "attributes"),
        forall|tag: u32|
            1 <= tag <= 0x1fff_ffff && !(1 <= tag <= 2) ==> #[trigger] passes_over(
                Kind::Event,
                tag,
            ),
{
    reveal(schema::field);
    lemma_text_field(Kind::Event, 1);
    lemma_nested_field(Kind::Event, 2, Kind::EventAttribute, false);
    assert forall|tag: u32|
        1 <= tag <= 0x1fff_ffff && !(1 <= tag <= 2) implies #[trigger] passes_over(
        Kind::Event,
        tag,
    ) by {
        lemma_unknown_field(Kind::Event, tag);
    }
}

/// The fields of messages of the kind `EventAttribute`.
pub proof fn law_event_attribute_fields()
    ensures
        holds_text(Kind::EventAttribute, 1),
        holds_text(Kind::EventAttribute, 2),
        holds_number(Kind::EventAttribute, 3),
        is_named(Kind::EventAttribute, "EventAttribute", 1, "key"),
        is_named(Kind::EventAttribute, "EventAttribute", 2, "value"),
        is_named(Kind::EventAttribute, "EventAttribute", 3, "index"),
        forall|tag: u32|
            1 <= tag <= 0x1fff_ffff && !(1 <= tag <= 3) ==> #[trigger] passes_over(
                Kind::EventAttribute,
                tag,
            ),
{
    reveal(schema::field);
    lemma_text_field(Kind::EventAttribute, 1);
    lemma_text_field(Kind::EventAttribute, 2);
    lemma_number_field(Kind::EventAttribute, 3);
    assert forall|tag: u32|
        1 <= tag <= 0x1fff_ffff && !(1 <= tag <= 3) implies #[trigger] passes_over(
        Kind::EventAttribute,
        tag,
    ) by {
        lemma_unknown_field(Kind::EventAttribute, tag);
    }
}

/// The fields of messages of the kind `TxResult`.
pub proof fn law_tx_result_fields()
    ensures
        holds_number(Kind::TxResult, 1),
        holds_number(Kind::TxResult, 2),
        holds_message(Kind::TxResult, 3, Kind::Tx),
        holds_message(Kind::TxResult, 4, Kind::ResponseDeliverTx),
        holds_bytes(Kind::TxResult, 5),
        is_named(Kind::TxResult, "TxResult", 1, "height"),
        is_named(Kind::TxResult, "TxResult", 2, "index"),
        is_named(Kind::TxResult, "TxResult", 3, "tx"),
        is_named(Kind::TxResult, "TxResult", 4, "result"),
        is_named(Kind::TxResult, "TxResult", 5, "hash"),
        forall|tag: u32|
            1 <= tag <= 0x1fff_ffff && !(1 <= tag <= 5) ==> #[trigger] passes_over(
                Kind::TxResult,
                tag,
            ),
{
    reveal(schema::field);
    lemma_number_field(Kind::TxResult, 1);
    lemma_number_field(Kind::TxResult, 2);
    lemma_nested_field(Kind::TxResult, 3, Kind::Tx, false);
    lemma_nested_field(Kind::TxResult, 4, Kind::ResponseDeliverTx, false);
    lemma_bytes_field(Kind::TxResult, 5);
    assert forall|tag: u32|
        1 <= tag <= 0x1fff_ffff && !(1 <= tag <= 5) implies #[trigger] passes_over(
        Kind::TxResult,
        tag,
    ) by {
        lemma_unknown_field(Kind::TxResult, tag);
    }
}

/// The fields of messages of the kind `Tx`.
pub proof fn law_tx_fields()
    ensures
        holds_message(Kind::Tx, 1, Kind::TxBody),
        holds_encoded(Kind::Tx, 2, Kind::AuthInfo),
        holds_bytes(Kind::Tx, 3),
        is_named(Kind::Tx, "Tx", 1, "body"),
        is_named(Kind::Tx, "Tx", 2, "auth_info"),
        is_named(Kind::Tx, "Tx", 3, "signatures"),
        forall|tag: u32|
            1 <= tag <= 0x1fff_ffff && !(1 <= tag <= 3) ==> #[trigger] passes_over(
                Kind::Tx,
                tag,
            ),
{
    reveal(schema::field);
    lemma_nested_field(Kind::Tx, 1, Kind::TxBody, false);
    lemma_nested_field(Kind::Tx, 2, Kind::AuthInfo, true);
    lemma_bytes_field(Kind::Tx, 3);
    assert forall|tag: u32|
        1 <= tag <= 0x1fff_ffff && !(1 <= tag <= 3) implies #[trigger] passes_over(
        Kind::Tx,
        tag,
    ) by {
        lemma_unknown_field(Kind::Tx, tag);
    }
}

/// The fields of messages of the kind `TxBody`.
pub proof fn law_tx_body_fields()
    ensures
        holds_message(Kind::TxBody, 1, Kind::Any),
        holds_text(Kind::TxBody, 2),
        holds_number(Kind::TxBody, 3),
        holds_message(Kind::TxBody, 1023, Kind::Any),
        holds_message(Kind::TxBody, 2047, Kind::Any),
        is_named(Kind::TxBody, "TxBody", 1, "messages"),
        is_named(Kind::TxBody, "TxBody", 2, "memo"),
        is_named(Kind::TxBody, "TxBody", 3, "timeout_height"),
        is_named(Kind::TxBody, "TxBody", 1023, "extension_options"),
        is_named(Kind::TxBody, "TxBody", 2047, "non_critical_extension_options"),
        forall|tag: u32|
            1 <= tag <= 0x1fff_ffff && !(1 <= tag <= 3 || tag == 1023 || tag == 2047)
                ==> #[trigger] passes_over(
                Kind::TxBody,
                tag,
            ),
{
    reveal(schema::field);
    lemma_nested_field(Kind::TxBody, 1, Kind::Any, false);
    lemma_text_field(Kind::TxBody, 2);
    lemma_number_field(Kind::TxBody, 3);
    lemma_nested_field(Kind::TxBody, 1023, Kind::Any, false);
    lemma_nested_field(Kind::TxBody, 2047, Kind::Any, false);
    assert forall|tag: u32|
        1 <= tag <= 0x1fff_ffff && !(1 <= tag <= 3 || tag == 1023 || tag == 2047)
            implies #[trigger] passes_over(
        Kind::TxBody,
        tag,
    ) by {
        lemma_unknown_field(Kind::TxBody, tag);
    }
}

/// The fields of messages of the kind `Any`.
pub proof fn law_any_fields()
    ensures
        holds_text(Kind::Any, 1),
        holds_bytes(Kind::Any, 2),
        is_named(Kind::Any, "Any", 1, "type_url"),
        is_named(Kind::Any, "Any", 2, "value"),
        forall|tag: u32|
            1 <= tag <= 0x1fff_ffff && !(1 <= tag <= 2) ==> #[trigger] passes_over(
                Kind::Any,
                tag,
            ),
{
    reveal(schema::field);
    lemma_text_field(Kind::Any, 1);
    lemma_bytes_field(Kind::Any, 2);
    assert forall|tag: u32|
        1 <= tag <= 0x1fff_ffff && !(1 <= tag <= 2) implies #[trigger] passes_over(
        Kind::Any,
        tag,
    ) by {
        lemma_unknown_field(Kind::Any, tag);
    }
}

/// The fields of messages of the kind `ResponseDeliverTx`.
pub proof fn law_response_deliver_tx_fields()
    ensures
        holds_number(Kind::ResponseDeliverTx, 1),
        holds_bytes(Kind::ResponseDeliverTx, 2),
        holds_text(Kind::ResponseDeliverTx, 3),
        holds_text(Kind::ResponseDeliverTx, 4),
        holds_number(Kind::ResponseDeliverTx, 5),
        holds_number(Kind::ResponseDeliverTx, 6),
        holds_message(Kind::ResponseDeliverTx, 7, Kind::Event),
        holds_text(Kind::ResponseDeliverTx, 8),
        is_named(Kind::ResponseDeliverTx, "ResponseDeliverTx", 1, "code"),
        is_named(Kind::ResponseDeliverTx, "ResponseDeliverTx", 2, "data"),
        is_named(Kind::ResponseDeliverTx, "ResponseDeliverTx", 3, "log"),
        is_named(Kind::ResponseDeliverTx, "ResponseDeliverTx", 4, "info"),
        is_named(Kind::ResponseDeliverTx, "ResponseDeliverTx", 5, "gas_wanted"),
        is_named(Kind::ResponseDeliverTx, "ResponseDeliverTx", 6, "gas_used"),
        is_named(Kind::ResponseDeliverTx, "ResponseDeliverTx", 7, "events"),
        is_named(Kind::ResponseDeliverTx, "ResponseDeliverTx", 8, "codespace"),
        forall|tag: u32|
            1 <= tag <= 0x1fff_ffff && !(1 <= tag <= 8) ==> #[trigger] passes_over(
                Kind::ResponseDeliverTx,
                tag,
            ),
{
    reveal(schema::field);
    lemma_number_field(Kind::ResponseDeliverTx, 1);
    lemma_bytes_field(Kind::ResponseDeliverTx, 2);
    lemma_text_field(Kind::ResponseDeliverTx, 3);
    lemma_text_field(Kind::ResponseDeliverTx, 4);
    lemma_number_field(Kind::ResponseDeliverTx, 5);
    lemma_number_field(Kind::ResponseDeliverTx, 6);
    lemma_nested_field(Kind::ResponseDeliverTx, 7, Kind::Event, false);
    lemma_text_field(Kind::ResponseDeliverTx, 8);
    assert forall|tag: u32|
        1 <= tag <= 0x1fff_ffff && !(1 <= tag <= 8) implies #[trigger] passes_over(
        Kind::ResponseDeliverTx,
        tag,
    ) by {
        lemma_unknown_field(Kind::ResponseDeliverTx, tag);
    }
}

/// The fields of messages of the kind `EvidenceList`.
pub proof fn law_evidence_list_fields()
    ensures
        holds_message(Kind::EvidenceList, 1, Kind::Evidence),
        is_named(Kind::EvidenceList, "EvidenceList", 1, "evidence"),
        forall|tag: u32|
            1 <= tag <= 0x1fff_ffff && !(tag == 1) ==> #[trigger] passes_over(
                Kind::EvidenceList,
                tag,
            ),
{
    reveal(schema::field);
    lemma_nested_field(Kind::EvidenceList, 1, Kind::Evidence, false);
    assert forall|tag: u32|
        1 <= tag <= 0x1fff_ffff && !(tag == 1) implies #[trigger] passes_over(
        Kind::EvidenceList,
        tag,
    ) by {
        lemma_unknown_field(Kind::EvidenceList, tag);
    }
}

/// The fields of messages of the kind `Evidence`.
pub proof fn law_evidence_fields()
    ensures
        holds_message(Kind::Evidence, 1, Kind::DuplicateVoteEvidence),
        holds_message(Kind::Evidence, 2, Kind::LightClientAttackEvidence),
        is_named(Kind::Evidence, "Evidence", 1, "sum"),
        is_named(Kind::Evidence, "Evidence", 2, "sum"),
        forall|tag: u32|
            1 <= tag <= 0x1fff_ffff && !(1 <= tag <= 2) ==> #[trigger] passes_over(
                Kind::Evidence,
                tag,
            ),
{
    reveal(schema::field);
    lemma_nested_field(Kind::Evidence, 1, Kind::DuplicateVoteEvidence, false);
    lemma_nested_field(Kind::Evidence, 2, Kind::LightClientAttackEvidence, false);
    assert forall|tag: u32|
        1 <= tag <= 0x1fff_ffff && !(1 <= tag <= 2) implies #[trigger] passes_over(
        Kind::Evidence,
        tag,
    ) by {
        lemma_unknown_field(Kind::Evidence, tag);
    }
}

/// The fields of messages of the kind `DuplicateVoteEvidence`.
pub proof fn law_duplicate_vote_evidence_fields()
    ensures
        holds_message(Kind::DuplicateVoteEvidence, 1, Kind::EventVote),
        holds_message(Kind::DuplicateVoteEvidence, 2, Kind::EventVote),
        holds_number(Kind::DuplicateVoteEvidence, 3),
        holds_number(Kind::DuplicateVoteEvidence, 4),
        holds_message(Kind::DuplicateVoteEvidence, 5, Kind::Timestamp),
        is_named(Kind::DuplicateVoteEvidence, "DuplicateVoteEvidence", 1, "vote_a"),
        is_named(Kind::DuplicateVoteEvidence, "DuplicateVoteEvidence", 2, "vote_b"),
        is_named(Kind::DuplicateVoteEvidence, "DuplicateVoteEvidence", 3, "total_voting_power"),
        is_named(Kind::DuplicateVoteEvidence, "DuplicateVoteEvidence", 4, "validator_power"),
        is_named(Kind::DuplicateVoteEvidence, "DuplicateVoteEvidence", 5, "timestamp"),
        forall|tag: u32|
            1 <= tag <= 0x1fff_ffff && !(1 <= tag <= 5) ==> #[trigger] passes_over(
                Kind::DuplicateVoteEvidence,
                tag,
            ),
{
    reveal(schema::field);
    lemma_nested_field(Kind::DuplicateVoteEvidence, 1, Kind::EventVote, false);
    lemma_nested_field(Kind::DuplicateVoteEvidence, 2, Kind::EventVote, false);
    lemma_number_field(Kind::DuplicateVoteEvidence, 3);
    lemma_number_field(Kind::DuplicateVoteEvidence, 4);
    lemma_nested_field(Kind::DuplicateVoteEvidence, 5, Kind::Timestamp, false);
    assert forall|tag: u32|
        1 <= tag <= 0x1fff_ffff && !(1 <= tag <= 5) implies #[trigger] passes_over(
        Kind::DuplicateVoteEvidence,
        tag,
    ) by {
        lemma_unknown_field(Kind::DuplicateVoteEvidence, tag);
    }
}

/// The fields of messages of the kind `EventVote`.
pub proof fn law_event_vote_fields()
    ensures
        holds_number(Kind::EventVote, 1),
        holds_number(Kind::EventVote, 2),
        holds_number(Kind::EventVote, 3),
        holds_message(Kind::EventVote, 4, Kind::BlockId),
        holds_message(Kind::EventVote, 5, Kind::Timestamp),
        holds_bytes(Kind::EventVote, 6),
        holds_number(Kind::EventVote, 7),
        holds_bytes(Kind::EventVote, 8),
        is_named(Kind::EventVote, "EventVote", 1, "event_vote_type"),
        is_named(Kind::EventVote, "EventVote", 2, "height"),
        is_named(Kind::EventVote, "EventVote", 3, "round"),
        is_named(Kind::EventVote, "EventVote", 4, "block_id"),
        is_named(Kind::EventVote, "EventVote", 5, "timestamp"),
        is_named(Kind::EventVote, "EventVote", 6, "validator_address"),
        is_named(Kind::EventVote, "EventVote", 7, "validator_index"),
        is_named(Kind::EventVote, "EventVote", 8, "signature"),
        forall|tag: u32|
            1 <= tag <= 0x1fff_ffff && !(1 <= tag <= 8) ==> #[trigger] passes_over(
                Kind::EventVote,
                tag,
            ),
{
    reveal(schema::field);
    lemma_number_field(Kind::EventVote, 1);
    lemma_number_field(Kind::EventVote, 2);
    lemma_number_field(Kind::EventVote, 3);
    lemma_nested_field(Kind::EventVote, 4, Kind::BlockId, false);
    lemma_nested_field(Kind::EventVote, 5, Kind::Timestamp, false);
    lemma_bytes_field(Kind::EventVote, 6);
    lemma_number_field(Kind::EventVote, 7);
    lemma_bytes_field(Kind::EventVote, 8);
    assert forall|tag: u32|
        1 <= tag <= 0x1fff_ffff && !(1 <= tag <= 8) implies #[trigger] passes_over(
        Kind::EventVote,
        tag,
    ) by {
        lemma_unknown_field(Kind::EventVote, tag);
    }
}

/// The fields of messages of the kind `LightClientAttackEvidence`.
pub proof fn law_light_client_attack_evidence_fields()
    ensures
        holds_message(Kind::LightClientAttackEvidence, 1, Kind::LightBlock),
        holds_number(Kind::LightClientAttackEvidence, 2),
        holds_message(Kind::LightClientAttackEvidence, 3, Kind::Validator),
        holds_number(Kind::LightClientAttackEvidence, 4),
        holds_message(Kind::LightClientAttackEvidence, 5, Kind::Timestamp),
        is_named(
            Kind::LightClientAttackEvidence,
            "LightClientAttackEvidence",
            1,
            "conflicting_block",
        ),
        is_named(Kind::LightClientAttackEvidence, "LightClientAttackEvidence", 2, "common_height"),
        is_named(
            Kind::LightClientAttackEvidence,
            "LightClientAttackEvidence",
            3,
            "byzantine_validators",
        ),
        is_named(
            Kind::LightClientAttackEvidence,
            "LightClientAttackEvidence",
            4,
            "total_voting_power",
        ),
        is_named(Kind::LightClientAttackEvidence, "LightClientAttackEvidence", 5, "timestamp"),
        forall|tag: u32|
            1 <= tag <= 0x1fff_ffff && !(1 <= tag <= 5) ==> #[trigger] passes_over(
                Kind::LightClientAttackEvidence,
                tag,
            ),
{
    reveal(schema::field);
    lemma_nested_field(Kind::LightClientAttackEvidence, 1, Kind::LightBlock, false);
    lemma_number_field(Kind::LightClientAttackEvidence, 2);
    lemma_nested_field(Kind::LightClientAttackEvidence, 3, Kind::Validator, false);
    lemma_number_field(Kind::LightClientAttackEvidence, 4);
    lemma_nested_field(Kind::LightClientAttackEvidence, 5, Kind::Timestamp, false);
    assert forall|tag: u32|
        1 <= tag <= 0x1fff_ffff && !(1 <= tag <= 5) implies #[trigger] passes_over(
        Kind::LightClientAttackEvidence,
        tag,
    ) by {
        lemma_unknown_field(Kind::LightClientAttackEvidence, tag);
    }
}

/// The fields of messages of the kind `LightBlock`.
pub proof fn law_light_block_fields()
    ensures
        holds_message(Kind::LightBlock, 1, Kind::SignedHeader),
        holds_message(Kind::LightBlock, 2, Kind::ValidatorSet),
        is_named(Kind::LightBlock, "LightBlock", 1, "signed_header"),
        is_named(Kind::LightBlock, "LightBlock", 2, "validator_set"),
        forall|tag: u32|
            1 <= tag <= 0x1fff_ffff && !(1 <= tag <= 2) ==> #[trigger] passes_over(
                Kind::LightBlock,
                tag,
            ),
{
    reveal(schema::field);
    lemma_nested_field(Kind::LightBlock, 1, Kind::SignedHeader, false);
    lemma_nested_field(Kind::LightBlock, 2, Kind::ValidatorSet, false);
    assert forall|tag: u32|
        1 <= tag <= 0x1fff_ffff && !(1 <= tag <= 2) implies #[trigger] passes_over(
        Kind::LightBlock,
        tag,
    ) by {
        lemma_unknown_field(Kind::LightBlock, tag);
    }
}

/// The fields of messages of the kind `SignedHeader`.
pub proof fn law_signed_header_fields()
    ensures
        holds_message(Kind::SignedHeader, 1, Kind::Header),
        holds_message(Kind::SignedHeader, 2, Kind::Commit),
        is_named(Kind::SignedHeader, "SignedHeader", 1, "header"),
        is_named(Kind::SignedHeader, "SignedHeader", 2, "commit"),
        forall|tag: u32|
            1 <= tag <= 0x1fff_ffff && !(1 <= tag <= 2) ==> #[trigger] passes_over(
                Kind::SignedHeader,
                tag,
            ),
{
    reveal(schema::field);
    lemma_nested_field(Kind::SignedHeader, 1, Kind::Header, false);
    lemma_nested_field(Kind::SignedHeader, 2, Kind::Commit, false);
    assert forall|tag: u32|
        1 <= tag <= 0x1fff_ffff && !(1 <= tag <= 2) implies #[trigger] passes_over(
        Kind::SignedHeader,
        tag,
    ) by {
        lemma_unknown_field(Kind::SignedHeader, tag);
    }
}

/// The fields of messages of the kind `Commit`.
pub proof fn law_commit_fields()
    ensures
        holds_number(Kind::Commit, 1),
        holds_number(Kind::Commit, 2),
        holds_message(Kind::Commit, 3, Kind::BlockId),
        holds_message(Kind::Commit, 4, Kind::CommitSig),
        is_named(Kind::Commit, "Commit", 1, "height"),
        is_named(Kind::Commit, "Commit", 2, "round"),
        is_named(Kind::Commit, "Commit", 3, "block_id"),
        is_named(Kind::Commit, "Commit", 4, "signatures"),
        forall|tag: u32|
            1 <= tag <= 0x1fff_ffff && !(1 <= tag <= 4) ==> #[trigger] passes_over(
                Kind::Commit,
                tag,
            ),
{
    reveal(schema::field);
    lemma_number_field(Kind::Commit, 1);
    lemma_number_field(Kind::Commit, 2);
    lemma_nested_field(Kind::Commit, 3, Kind::BlockId, false);
    lemma_nested_field(Kind::Commit, 4, Kind::CommitSig, false);
    assert forall|tag: u32|
        1 <= tag <= 0x1fff_ffff && !(1 <= tag <= 4) implies #[trigger] passes_over(
        Kind::Commit,
        tag,
    ) by {
        lemma_unknown_field(Kind::Commit, tag);
    }
}

/// The fields of messages of the kind `CommitSig`.
pub proof fn law_commit_sig_fields()
    ensures
        holds_number(Kind::CommitSig, 1),
        holds_bytes(Kind::CommitSig, 2),
        holds_message(Kind::CommitSig, 3, Kind::Timestamp),
        holds_bytes(Kind::CommitSig, 4),
        is_named(Kind::CommitSig, "CommitSig", 1, "block_id_flag"),
        is_named(Kind::CommitSig, "CommitSig", 2, "validator_address"),
        is_named(Kind::CommitSig, "CommitSig", 3, "timestamp"),
        is_named(Kind::CommitSig, "CommitSig", 4, "signature"),
        forall|tag: u32|
            1 <= tag <= 0x1fff_ffff && !(1 <= tag <= 4) ==> #[trigger] passes_over(
                Kind::CommitSig,
                tag,
            ),
{
    reveal(schema::field);
    lemma_number_field(Kind::CommitSig, 1);
    lemma_bytes_field(Kind::CommitSig, 2);
    lemma_nested_field(Kind::CommitSig, 3, Kind::Timestamp, false);
    lemma_bytes_field(Kind::CommitSig, 4);
    assert forall|tag: u32|
        1 <= tag <= 0x1fff_ffff && !(1 <= tag <= 4) implies #[trigger] passes_over(
        Kind::CommitSig,
        tag,
    ) by {
        lemma_unknown_field(Kind::CommitSig, tag);
    }
}

/// The fields of messages of the kind `ValidatorSet`.
pub proof fn law_validator_set_fields()
    ensures
        holds_message(Kind::ValidatorSet, 1, Kind::Validator),
        holds_message(Kind::ValidatorSet, 2, Kind::Validator),
        holds_number(Kind::ValidatorSet, 3),
        is_named(Kind::ValidatorSet, "ValidatorSet", 1, "validators"),
        is_named(Kind::ValidatorSet, "ValidatorSet", 2, "proposer"),
        is_named(Kind::ValidatorSet, "ValidatorSet", 3, "total_voting_power"),
        forall|tag: u32|
            1 <= tag <= 0x1fff_ffff && !(1 <= tag <= 3) ==> #[trigger] passes_over(
                Kind::ValidatorSet,
                tag,
            ),
{
    reveal(schema::field);
    lemma_nested_field(Kind::ValidatorSet, 1, Kind::Validator, false);
    lemma_nested_field(Kind::ValidatorSet, 2, Kind::Validator, false);
    lemma_number_field(Kind::ValidatorSet, 3);
    assert forall|tag: u32|
        1 <= tag <= 0x1fff_ffff && !(1 <= tag <= 3) implies #[trigger] passes_over(
        Kind::ValidatorSet,
        tag,
    ) by {
        lemma_unknown_field(Kind::ValidatorSet, tag);
    }
}

/// The fields of messages of the kind `Validator`.
pub proof fn law_validator_fields()
    ensures
        holds_bytes(Kind::Validator, 1),
        holds_message(Kind::Validator, 2, Kind::PublicKey),
        holds_number(Kind::Validator, 3),
        holds_number(Kind::Validator, 4),
        is_named(Kind::Validator, "Validator", 1, "address"),
        is_named(Kind::Validator, "Validator", 2, "pub_key"),
        is_named(Kind::Validator, "Validator", 3, "voting_power"),
        is_named(Kind::Validator, "Validator", 4, "proposer_priority"),
        forall|tag: u32|
            1 <= tag <= 0x1fff_ffff && !(1 <= tag <= 4) ==> #[trigger] passes_over(
                Kind::Validator,
                tag,
            ),
{
    reveal(schema::field);
    lemma_bytes_field(Kind::Validator, 1);
    lemma_nested_field(Kind::Validator, 2, Kind::PublicKey, false);
    lemma_number_field(Kind::Validator, 3);
    lemma_number_field(Kind::Validator, 4);
    assert forall|tag: u32|
        1 <= tag <= 0x1fff_ffff && !(1 <= tag <= 4) implies #[trigger] passes_over(
        Kind::Validator,
        tag,
    ) by {
        lemma_unknown_field(Kind::Validator, tag);
    }
}

/// The fields of messages of the kind `PublicKey`.
pub proof fn law_public_key_fields()
    ensures
        holds_bytes(Kind::PublicKey, 1),
        holds_bytes(Kind::PublicKey, 2),
        is_named(Kind::PublicKey, "PublicKey", 1, "sum"),
        is_named(Kind::PublicKey, "PublicKey", 2, "sum"),
        forall|tag: u32|
            1 <= tag <= 0x1fff_ffff && !(1 <= tag <= 2) ==> #[trigger] passes_over(
                Kind::PublicKey,
                tag,
            ),
{
    reveal(schema::field);
    lemma_bytes_field(Kind::PublicKey, 1);
    lemma_bytes_field(Kind::PublicKey, 2);
    assert forall|tag: u32|
        1 <= tag <= 0x1fff_ffff && !(1 <= tag <= 2) implies #[trigger] passes_over(
        Kind::PublicKey,
        tag,
    ) by {
        lemma_unknown_field(Kind::PublicKey, tag);
    }
}

/// The fields of messages of the kind `ValidatorUpdate`.
pub proof fn law_validator_update_fields()
    ensures
        holds_bytes(Kind::ValidatorUpdate, 1),
        holds_message(Kind::ValidatorUpdate, 2, Kind::PublicKey),
        holds_number(Kind::ValidatorUpdate, 3),
        is_named(Kind::ValidatorUpdate, "ValidatorUpdate", 1, "address"),
        is_named(Kind::ValidatorUpdate, "ValidatorUpdate", 2, "pub_key"),
        is_named(Kind::ValidatorUpdate, "ValidatorUpdate", 3, "power"),
        forall|tag: u32|
            1 <= tag <= 0x1fff_ffff && !(1 <= tag <= 3) ==> #[trigger] passes_over(
                Kind::ValidatorUpdate,
                tag,
            ),
{
    reveal(schema::field);
    lemma_bytes_field(Kind::ValidatorUpdate, 1);
    lemma_nested_field(Kind::ValidatorUpdate, 2, Kind::PublicKey, false);
    lemma_number_field(Kind::ValidatorUpdate, 3);
    assert forall|tag: u32|
        1 <= tag <= 0x1fff_ffff && !(1 <= tag <= 3) implies #[trigger] passes_over(
        Kind::ValidatorUpdate,
        tag,
    ) by {
        lemma_unknown_field(Kind::ValidatorUpdate, tag);
    }
}

/// The fields of messages of the kind `ConsensusParams`.
pub proof fn law_consensus_params_fields()
    ensures
        holds_message(Kind::ConsensusParams, 1, Kind::BlockParams),
        holds_message(Kind::ConsensusParams, 2, Kind::EvidenceParams),
        holds_message(Kind::ConsensusParams, 3, Kind::ValidatorParams),
        holds_message(Kind::ConsensusParams, 4, Kind::VersionParams),
        is_named(Kind::ConsensusParams, "ConsensusParams", 1, "block"),
        is_named(Kind::ConsensusParams, "ConsensusParams", 2, "evidence"),
        is_named(Kind::ConsensusParams, "ConsensusParams", 3, "validator"),
        is_named(Kind::ConsensusParams, "ConsensusParams", 4, "version"),
        forall|tag: u32|
            1 <= tag <= 0x1fff_ffff && !(1 <= tag <= 4) ==> #[trigger] passes_over(
                Kind::ConsensusParams,
                tag,
            ),
{
    reveal(schema::field);
    lemma_nested_field(Kind::ConsensusParams, 1, Kind::BlockParams, false);
    lemma_nested_field(Kind::ConsensusParams, 2, Kind::EvidenceParams, false);
    lemma_nested_field(Kind::ConsensusParams, 3, Kind::ValidatorParams, false);
    lemma_nested_field(Kind::ConsensusParams, 4, Kind::VersionParams, false);
    assert forall|tag: u32|
        1 <= tag <= 0x1fff_ffff && !(1 <= tag <= 4) implies #[trigger] passes_over(
        Kind::ConsensusParams,
        tag,
    ) by {
        lemma_unknown_field(Kind::ConsensusParams, tag);
    }
}

/// The fields of messages of the kind `BlockParams`.
pub proof fn law_block_params_fields()
    ensures
        holds_number(Kind::BlockParams, 1),
        holds_number(Kind::BlockParams, 2),
        is_named(Kind::BlockParams, "BlockParams", 1, "max_bytes"),
        is_named(Kind::BlockParams, "BlockParams", 2, "max_gas"),
        forall|tag: u32|
            1 <= tag <= 0x1fff_ffff && !(1 <= tag <= 2) ==> #[trigger] passes_over(
                Kind::BlockParams,
                tag,
            ),
{
    reveal(schema::field);
    lemma_number_field(Kind::BlockParams, 1);
    lemma_number_field(Kind::BlockParams, 2);
    assert forall|tag: u32|
        1 <= tag <= 0x1fff_ffff && !(1 <= tag <= 2) implies #[trigger] passes_over(
        Kind::BlockParams,
        tag,
    ) by {
        lemma_unknown_field(Kind::BlockParams, tag);
    }
}

/// The fields of messages of the kind `EvidenceParams`.
pub proof fn law_evidence_params_fields()
    ensures
        holds_number(Kind::EvidenceParams, 1),
        holds_message(Kind::EvidenceParams, 2, Kind::Duration),
        holds_number(Kind::EvidenceParams, 3),
        is_named(Kind::EvidenceParams, "EvidenceParams", 1, "max_age_num_blocks"),
        is_named(Kind::EvidenceParams, "EvidenceParams", 2, "max_age_duration"),
        is_named(Kind::EvidenceParams, "EvidenceParams", 3, "max_bytes"),
        forall|tag: u32|
            1 <= tag <= 0x1fff_ffff && !(1 <= tag <= 3) ==> #[trigger] passes_over(
                Kind::EvidenceParams,
                tag,
            ),
{
    reveal(schema::field);
    lemma_number_field(Kind::EvidenceParams, 1);
    lemma_nested_field(Kind::EvidenceParams, 2, Kind::Duration, false);
    lemma_number_field(Kind::EvidenceParams, 3);
    assert forall|tag: u32|
        1 <= tag <= 0x1fff_ffff && !(1 <= tag <= 3) implies #[trigger] passes_over(
        Kind::EvidenceParams,
        tag,
    ) by {
        lemma_unknown_field(Kind::EvidenceParams, tag);
    }
}

/// The fields of messages of the kind `Duration`.
pub proof fn law_duration_fields()
    ensures
        holds_number(Kind::Duration, 1),
        holds_number(Kind::Duration, 2),
        is_named(Kind::Duration, "Duration", 1, "seconds"),
        is_named(Kind::Duration, "Duration", 2, "nanos"),
        forall|tag: u32|
            1 <= tag <= 0x1fff_ffff && !(1 <= tag <= 2) ==> #[trigger] passes_over(
                Kind::Duration,
                tag,
            ),
{
    reveal(schema::field);
    lemma_number_field(Kind::Duration, 1);
    lemma_number_field(Kind::Duration, 2);
    assert forall|tag: u32|
        1 <= tag <= 0x1fff_ffff && !(1 <= tag <= 2) implies #[trigger] passes_over(
        Kind::Duration,
        tag,
    ) by {
        lemma_unknown_field(Kind::Duration, tag);
    }
}

/// The fields of messages of the kind `ValidatorParams`.
pub proof fn law_validator_params_fields()
    ensures
        holds_text(Kind::ValidatorParams, 1),
        is_named(Kind::ValidatorParams, "ValidatorParams", 1, "pub_key_types"),
        forall|tag: u32|
            1 <= tag <= 0x1fff_ffff && !(tag == 1) ==> #[trigger] passes_over(
                Kind::ValidatorParams,
                tag,
            ),
{
    reveal(schema::field);
    lemma_text_field(Kind::ValidatorParams, 1);
    assert forall|tag: u32|
        1 <= tag <= 0x1fff_ffff && !(tag == 1) implies #[trigger] passes_over(
        Kind::ValidatorParams,
        tag,
    ) by {
        lemma_unknown_field(Kind::ValidatorParams, tag);
    }
}

/// The fields of messages of the kind `VersionParams`.
pub proof fn law_version_params_fields()
    ensures
        holds_number(Kind::VersionParams, 1),
        is_named(Kind::VersionParams, "VersionParams", 1, "app_version"),
        forall|tag: u32|
            1 <= tag <= 0x1fff_ffff && !(tag == 1) ==> #[trigger] passes_over(
                Kind::VersionParams,
                tag,
            ),
{
    reveal(schema::field);
    lemma_number_field(Kind::VersionParams, 1);
    assert forall|tag: u32|
        1 <= tag <= 0x1fff_ffff && !(tag == 1) implies #[trigger] passes_over(
        Kind::VersionParams,
        tag,
    ) by {
        lemma_unknown_field(Kind::VersionParams, tag);
    }
}

/// The fields of messages of the kind `AuthInfo`.
pub proof fn law_auth_info_fields()
    ensures
        holds_message(Kind::AuthInfo, 1, Kind::SignerInfo),
        holds_message(Kind::AuthInfo, 2, Kind::Fee),
        holds_message(Kind::AuthInfo, 3, Kind::Tip),
        is_named(Kind::AuthInfo, "AuthInfo", 1, "signer_infos"),
        is_named(Kind::AuthInfo, "AuthInfo", 2, "fee"),
        is_named(Kind::AuthInfo, "AuthInfo", 3, "tip"),
        forall|tag: u32|
            1 <= tag <= 0x1fff_ffff && !(1 <= tag <= 3) ==> #[trigger] passes_over(
                Kind::AuthInfo,
                tag,
            ),
{
    reveal(schema::field);
    lemma_nested_field(Kind::AuthInfo, 1, Kind::SignerInfo, false);
    lemma_nested_field(Kind::AuthInfo, 2, Kind::Fee, false);
    lemma_nested_field(Kind::AuthInfo, 3, Kind::Tip, false);
    assert forall|tag: u32|
        1 <= tag <= 0x1fff_ffff && !(1 <= tag <= 3) implies #[trigger] passes_over(
        Kind::AuthInfo,
        tag,
    ) by {
        lemma_unknown_field(Kind::AuthInfo, tag);
    }
}

/// The fields of messages of the kind `SignerInfo`.
pub proof fn law_signer_info_fields()
    ensures
        holds_message(Kind::SignerInfo, 1, Kind::Any),
        holds_message(Kind::SignerInfo, 2, Kind::ModeInfo),
        holds_number(Kind::SignerInfo, 3),
        is_named(Kind::SignerInfo, "SignerInfo", 1, "public_key"),
        is_named(Kind::SignerInfo, "SignerInfo", 2, "mode_info"),
        is_named(Kind::SignerInfo, "SignerInfo", 3, "sequence"),
        forall|tag: u32|
            1 <= tag <= 0x1fff_ffff && !(1 <= tag <= 3) ==> #[trigger] passes_over(
                Kind::SignerInfo,
                tag,
            ),
{
    reveal(schema::field);
    lemma_nested_field(Kind::SignerInfo, 1, Kind::Any, false);
    lemma_nested_field(Kind::SignerInfo, 2, Kind::ModeInfo, false);
    lemma_number_field(Kind::SignerInfo, 3);
    assert forall|tag: u32|
        1 <= tag <= 0x1fff_ffff && !(1 <= tag <= 3) implies #[trigger] passes_over(
        Kind::SignerInfo,
        tag,
    ) by {
        lemma_unknown_field(Kind::SignerInfo, tag);
    }
}

/// The fields of messages of the kind `ModeInfo`.
pub proof fn law_mode_info_fields()
    ensures
        holds_message(Kind::ModeInfo, 1, Kind::ModeInfoSingle),
        holds_message(Kind::ModeInfo, 2, Kind::ModeInfoMulti),
        is_named(Kind::ModeInfo, "ModeInfo", 1, "sum"),
        is_named(Kind::ModeInfo, "ModeInfo", 2, "sum"),
        forall|tag: u32|
            1 <= tag <= 0x1fff_ffff && !(1 <= tag <= 2) ==> #[trigger] passes_over(
                Kind::ModeInfo,
                tag,
            ),
{
    reveal(schema::field);
    lemma_nested_field(Kind::ModeInfo, 1, Kind::ModeInfoSingle, false);
    lemma_nested_field(Kind::ModeInfo, 2, Kind::ModeInfoMulti, false);
    assert forall|tag: u32|
        1 <= tag <= 0x1fff_ffff && !(1 <= tag <= 2) implies #[trigger] passes_over(
        Kind::ModeInfo,
        tag,
    ) by {
        lemma_unknown_field(Kind::ModeInfo, tag);
    }
}

/// The fields of messages of the kind `ModeInfoSingle`.
pub proof fn law_mode_info_single_fields()
    ensures
        holds_number(Kind::ModeInfoSingle, 1),
        is_named(Kind::ModeInfoSingle, "ModeInfoSingle", 1, "mode"),
        forall|tag: u32|
            1 <= tag <= 0x1fff_ffff && !(tag == 1) ==> #[trigger] passes_over(
                Kind::ModeInfoSingle,
                tag,
            ),
{
    reveal(schema::field);
    lemma_number_field(Kind::ModeInfoSingle, 1);
    assert forall|tag: u32|
        1 <= tag <= 0x1fff_ffff && !(tag == 1) implies #[trigger] passes_over(
        Kind::ModeInfoSingle,
        tag,
    ) by {
        lemma_unknown_field(Kind::ModeInfoSingle, tag);
    }
}

/// The fields of messages of the kind `ModeInfoMulti`.
pub proof fn law_mode_info_multi_fields()
    ensures
        holds_message(Kind::ModeInfoMulti, 1, Kind::CompactBitArray),
        holds_message(Kind::ModeInfoMulti, 2, Kind::ModeInfo),
        is_named(Kind::ModeInfoMulti, "ModeInfoMulti", 1, "bitarray"),
        is_named(Kind::ModeInfoMulti, "ModeInfoMulti", 2, "mode_infos"),
        forall|tag: u32|
            1 <= tag <= 0x1fff_ffff && !(1 <= tag <= 2) ==> #[trigger] passes_over(
                Kind::ModeInfoMulti,
                tag,
            ),
{
    reveal(schema::field);
    lemma_nested_field(Kind::ModeInfoMulti, 1, Kind::CompactBitArray, false);
    lemma_nested_field(Kind::ModeInfoMulti, 2, Kind::ModeInfo, false);
    assert forall|tag: u32|
        1 <= tag <= 0x1fff_ffff && !(1 <= tag <= 2) implies #[trigger] passes_over(
        Kind::ModeInfoMulti,
        tag,
    ) by {
        lemma_unknown_field(Kind::ModeInfoMulti, tag);
    }
}

/// The fields of messages of the kind `CompactBitArray`.
pub proof fn law_compact_bit_array_fields()
    ensures
        holds_number(Kind::CompactBitArray, 1),
        holds_bytes(Kind::CompactBitArray, 2),
        is_named(Kind::CompactBitArray, "CompactBitArray", 1, "extra_bits_stored"),
        is_named(Kind::CompactBitArray, "CompactBitArray", 2, "elems"),
        forall|tag: u32|
            1 <= tag <= 0x1fff_ffff && !(1 <= tag <= 2) ==> #[trigger] passes_over(
                Kind::CompactBitArray,
                tag,
            ),
{
    reveal(schema::field);
    lemma_number_field(Kind::CompactBitArray, 1);
    lemma_bytes_field(Kind::CompactBitArray, 2);
    assert forall|tag: u32|
        1 <= tag <= 0x1fff_ffff && !(1 <= tag <= 2) implies #[trigger] passes_over(
        Kind::CompactBitArray,
        tag,
    ) by {
        lemma_unknown_field(Kind::CompactBitArray, tag);
    }
}

/// The fields of messages of the kind `Fee`.
pub proof fn law_fee_fields()
    ensures
        holds_message(Kind::Fee, 1, Kind::Coin),
        holds_number(Kind::Fee, 2),
        holds_text(Kind::Fee, 3),
        holds_text(Kind::Fee, 4),
        is_named(Kind::Fee, "Fee", 1, "amount"),
        is_named(Kind::Fee, "Fee", 2, "gas_limit"),
        is_named(Kind::Fee, "Fee", 3, "payer"),
        is_named(Kind::Fee, "Fee", 4, "granter"),
        forall|tag: u32|
            1 <= tag <= 0x1fff_ffff && !(1 <= tag <= 4) ==> #[trigger] passes_over(
                Kind::Fee,
                tag,
            ),
{
    reveal(schema::field);
    lemma_nested_field(Kind::Fee, 1, Kind::Coin, false);
    lemma_number_field(Kind::Fee, 2);
    lemma_text_field(Kind::Fee, 3);
    lemma_text_field(Kind::Fee, 4);
    assert forall|tag: u32|
        1 <= tag <= 0x1fff_ffff && !(1 <= tag <= 4) implies #[trigger] passes_over(
        Kind::Fee,
        tag,
    ) by {
        lemma_unknown_field(Kind::Fee, tag);
    }
}

/// The fields of messages of the kind `Coin`.
pub proof fn law_coin_fields()
    ensures
        holds_text(Kind::Coin, 1),
        holds_text(Kind::Coin, 2),
        is_named(Kind::Coin, "Coin", 1, "denom"),
        is_named(Kind::Coin, "Coin", 2, "amount"),
        forall|tag: u32|
            1 <= tag <= 0x1fff_ffff && !(1 <= tag <= 2) ==> #[trigger] passes_over(
                Kind::Coin,
                tag,
            ),
{
    reveal(schema::field);
    lemma_text_field(Kind::Coin, 1);
    lemma_text_field(Kind::Coin, 2);
    assert forall|tag: u32|
        1 <= tag <= 0x1fff_ffff && !(1 <= tag <= 2) implies #[trigger] passes_over(
        Kind::Coin,
        tag,
    ) by {
        lemma_unknown_field(Kind::Coin, tag);
    }
}

/// The fields of messages of the kind `Tip`.
pub proof fn law_tip_fields()
    ensures
        holds_message(Kind::Tip, 1, Kind::Coin),
        holds_text(Kind::Tip, 2),
        is_named(Kind::Tip, "Tip", 1, "amount"),
        is_named(Kind::Tip, "Tip", 2, "tipper"),
        forall|tag: u32|
            1 <= tag <= 0x1fff_ffff && !(1 <= tag <= 2) ==> #[trigger] passes_over(
                Kind::Tip,
                tag,
            ),
{
    reveal(schema::field);
    lemma_nested_field(Kind::Tip, 1, Kind::Coin, false);
    lemma_text_field(Kind::Tip, 2);
    assert forall|tag: u32|
        1 <= tag <= 0x1fff_ffff && !(1 <= tag <= 2) implies #[trigger] passes_over(
        Kind::Tip,
        tag,
    ) by {
        lemma_unknown_field(Kind::Tip, tag);
    }
}

proof fn lemma_prepend_row(
    head: FieldModel,
    front: Result<Seq<FieldModel>, FailureModel>,
    back: Seq<FieldModel>,
)
    requires
        front is Ok,
    ensures
        fields::prepend(head, Ok(front->Ok_0 + back)) == Ok::<Seq<FieldModel>, FailureModel>(
            fields::prepend(head, front)->Ok_0 + back,
        ),
{
    assert(seq![head] + (front->Ok_0 + back) =~= seq![head] + front->Ok_0 + back);
}

/// What is read of two rows of fields, one behind the other, is what is read of each. If the
/// second is refused, both together are.
#[verifier::spinoff_prover]
#[verifier::rlimit(60)]
pub proof fn law_rows_of_fields(kind: Kind, front: Seq<u8>, back: Seq<u8>, depth: nat)
    requires
        fields::fields(kind, front, 0, depth) is Ok,
    ensures
        match fields::fields(kind, back, 0, depth) {
            Ok(list) => reads_as(
                kind,
                front + back,
                depth,
                fields::fields(kind, front, 0, depth)->Ok_0 + list,
            ),
            Err(_) => is_refused(kind, front + back, depth),
        },
    decreases front.len(),
{
    let last = fields::fields(kind, back, 0, depth);
    if front.len() == 0 {
        assert(front + back =~= back);
        if last is Ok {
            assert(Seq::<FieldModel>::empty() + last->Ok_0 =~= last->Ok_0);
        }
    } else {
        let (tag, wire_type, rest) = wire::key(front)->0;
        let field_type = schema::field_type(kind, tag);
        round_trip::lemma_varint_extends(front, back);
        wire::lemma_varint_shrinks(front);
        wire::lemma_varint_shrinks(rest);
        match fields::nested_kind(field_type) {
            Some(inner) => {
                let (bytes, behind) = wire::delimited(rest)->0;
                let content = fields::fields(
                    inner,
                    bytes + behind,
                    behind.len(),
                    (depth - 1) as nat,
                )->Ok_0;
                round_trip::lemma_delimited_extends(rest, back);
                round_trip::lemma_fields_extend(
                    inner,
                    bytes + behind,
                    behind.len(),
                    (depth - 1) as nat,
                    back,
                );
                assert(bytes + behind + back =~= bytes + (behind + back));
                law_rows_of_fields(kind, behind, back, depth);
                if last is Ok {
                    let value = fields::nested_value(field_type, bytes, content);
                    lemma_prepend_row(
                        FieldModel { tag, value },
                        fields::fields(kind, behind, 0, depth),
                        last->Ok_0,
                    );
                }
            },
            None => if field_type == FieldType::Unknown {
                round_trip::lemma_skipped_extends(wire_type, tag, rest, depth, back);
                wire::lemma_skipped_shrinks(wire_type, tag, rest, depth);
                let behind = wire::skipped(wire_type, tag, rest, depth)->0;
                law_rows_of_fields(kind, behind, back, depth);
            } else {
                round_trip::lemma_plain_value_extends(field_type, wire_type, rest, back);
                fields::lemma_plain_value_shrinks(field_type, wire_type, rest);
                let (value, behind) = fields::plain_value(field_type, wire_type, rest)->0;
                law_rows_of_fields(kind, behind, back, depth);
                if last is Ok {
                    lemma_prepend_row(
                        FieldModel { tag, value },
                        fields::fields(kind, behind, 0, depth),
                        last->Ok_0,
                    );
                }
            },
        }
    }
}

/// A message without fields is empty.
pub proof fn law_empty_message(kind: Kind, depth: nat)
    ensures
        reads_as(kind, Seq::empty(), depth, Seq::empty()),
{
}

/// What is passed over of a field that is not known: a number, eight bytes, bytes with their
/// length, or four bytes.
pub proof fn law_values_passed_over(
    tag: u32,
    number: u64,
    bytes: Seq<u8>,
    tail: Seq<u8>,
    depth: nat,
)
    requires
        depth > 0,
        bytes.len() <= u64::MAX,
    ensures
        wire::skipped(0, tag, encode::encoded_varint(number as nat) + tail, depth) == Some(tail),
        wire::skipped(2, tag, encode::encoded_bytes(bytes) + tail, depth) == Some(tail),
        bytes.len() == 8 ==> wire::skipped(1, tag, bytes + tail, depth) == Some(tail),
        bytes.len() == 4 ==> wire::skipped(5, tag, bytes + tail, depth) == Some(tail),
        wire::skipped(4, tag, tail, depth) is None,
        tail.len() < 8 ==> wire::skipped(1, tag, tail, depth) is None,
        tail.len() < 4 ==> wire::skipped(5, tag, tail, depth) is None,
{
    round_trip::lemma_varint(number, tail);
    round_trip::lemma_bytes(bytes, tail);
    assert((bytes + tail).skip(bytes.len() as int) =~= tail);
}

/// A group that is not known is passed over up to the key that closes it. Another closing key is
/// refused. The fields in a group are passed over one by one, one level further in. At the
/// innermost level nothing is.
pub proof fn law_groups_passed_over(
    tag: u32,
    other: u32,
    wire_type: u64,
    value: Seq<u8>,
    tail: Seq<u8>,
    depth: nat,
)
    requires
        depth > 0,
        1 <= tag <= 0x1fff_ffff,
        1 <= other <= 0x1fff_ffff,
        wire_type <= 5,
        wire_type != 4,
    ensures
        wire::skipped(3, tag, encode::encoded_key(tag, 4) + tail, depth) == Some(tail),
        other != tag ==> wire::skipped(3, tag, encode::encoded_key(other, 4) + tail, depth)
            is None,
        match wire::skipped(wire_type, other, value, (depth - 1) as nat) {
            Some(behind) => wire::skipped(
                3,
                tag,
                encode::encoded_key(other, wire_type) + value,
                depth,
            ) == wire::skipped(3, tag, behind, depth),
            None => wire::skipped(3, tag, encode::encoded_key(other, wire_type) + value, depth)
                is None,
        },
        wire::skipped(wire_type, tag, value, 0) is None,
{
    round_trip::lemma_key(tag, 4, tail);
    round_trip::lemma_key(other, 4, tail);
    round_trip::lemma_key(other, wire_type, value);
    wire::lemma_skipped_shrinks(wire_type, other, value, (depth - 1) as nat);
}

/// The bytes of a change of a validator: its address, its key and its power.
pub open spec fn update_bytes(address: Seq<u8>, key_tag: u32, key: Seq<u8>, power: u64) -> Seq<u8> {
    delimited_bytes(1, address) + delimited_bytes(2, delimited_bytes(key_tag, key)) + number_bytes(
        3,
        power,
    )
}

/// A change of a validator is accepted for every address, every key of either type and every
/// power, both where validators are updated and where they are listed.
pub proof fn law_validators_are_accepted(
    address: Seq<u8>,
    key_tag: u32,
    key: Seq<u8>,
    power: u64,
    depth: nat,
)
    requires
        key_tag == 1 || key_tag == 2,
        address.len() <= u64::MAX,
        key.len() <= u64::MAX,
        delimited_bytes(key_tag, key).len() <= u64::MAX,
    ensures
        encode::is_message(
            Kind::ValidatorUpdate,
            update_bytes(address, key_tag, key, power),
            depth + 1,
        ),
        encode::is_message(
            Kind::Validator,
            update_bytes(address, key_tag, key, power),
            depth + 1,
        ),
{
    law_public_key_fields();
    law_validator_update_fields();
    law_validator_fields();
    let key_bytes = delimited_bytes(key_tag, key);
    let key_list = seq![FieldModel { tag: key_tag, value: ValueModel::Bytes(key) }];
    assert(reads_as(Kind::PublicKey, key_bytes, depth, key_list));
    let address_list = seq![FieldModel { tag: 1, value: ValueModel::Bytes(address) }];
    let key_field = seq![FieldModel { tag: 2, value: ValueModel::Message(key_list) }];
    let power_list = seq![FieldModel { tag: 3, value: ValueModel::Number(power) }];
    let front = delimited_bytes(1, address) + delimited_bytes(2, key_bytes);
    assert(reads_as(
        Kind::ValidatorUpdate,
        delimited_bytes(1, address),
        depth + 1,
        address_list,
    ));
    assert(reads_as(
        Kind::ValidatorUpdate,
        delimited_bytes(2, key_bytes),
        depth + 1,
        key_field,
    ));
    assert(reads_as(Kind::ValidatorUpdate, number_bytes(3, power), depth + 1, power_list));
    law_rows_of_fields(
        Kind::ValidatorUpdate,
        delimited_bytes(1, address),
        delimited_bytes(2, key_bytes),
        depth + 1,
    );
    law_rows_of_fields(Kind::ValidatorUpdate, front, number_bytes(3, power), depth + 1);
    assert(reads_as(Kind::Validator, delimited_bytes(1, address), depth + 1, address_list));
    assert(reads_as(Kind::Validator, delimited_bytes(2, key_bytes), depth + 1, key_field));
    assert(reads_as(Kind::Validator, number_bytes(3, power), depth + 1, power_list));
    law_rows_of_fields(
        Kind::Validator,
        delimited_bytes(1, address),
        delimited_bytes(2, key_bytes),
        depth + 1,
    );
    law_rows_of_fields(Kind::Validator, front, number_bytes(3, power), depth + 1);
}

/// A block decodes exactly if its bytes are a message of that kind, in which messages and groups
/// are nested a hundred deep at most.
pub proof fn law_blocks_that_decode(
    bytes: &[u8],
    res: Result<Block, DecodeError>,
    list: Seq<FieldModel>,
)
    requires
        call_ensures(Block::decode, (bytes,), res),
    ensures
        res is Err <==> is_refused(Kind::Block, bytes@, 100),
        res matches Err(err) ==> fields::tells(
            fields::fields(Kind::Block, bytes@, 0, 100)->Err_0,
            err,
        ),
        reads_as(Kind::Block, bytes@, 100, list) ==> res is Ok && res->Ok_0.deep_view()
            == decode::block_model(list),
{
}

/// A block with a change of a validator decodes, and the change is kept.
pub proof fn law_block_with_validator_update(
    address: Seq<u8>,
    key_tag: u32,
    key: Seq<u8>,
    power: u64,
    bytes: &[u8],
    res: Result<Block, DecodeError>,
)
    requires
        key_tag == 1 || key_tag == 2,
        bytes@ == delimited_bytes(
            5,
            delimited_bytes(1, update_bytes(address, key_tag, key, power)),
        ),
        bytes@.len() <= u64::MAX,
        call_ensures(Block::decode, (bytes,), res),
    ensures
        res is Ok,
        res->Ok_0.result_end_block is Some,
        res->Ok_0.result_end_block->0.validator_updates.deep_view() == seq![
            update_bytes(address, key_tag, key, power),
        ],
{
    let update = update_bytes(address, key_tag, key, power);
    let end = delimited_bytes(1, update);
    law_validators_are_accepted(address, key_tag, key, power, 97);
    law_response_end_block_fields();
    law_block_fields();
    let inside = fields::fields(Kind::ValidatorUpdate, update, 0, 98)->Ok_0;
    assert(reads_as(Kind::ValidatorUpdate, update, 98, inside));
    let field = FieldModel { tag: 1, value: ValueModel::Bytes(update) };
    assert(reads_as(Kind::ResponseEndBlock, end, 99, seq![field]));
    let outer = FieldModel { tag: 5, value: ValueModel::Message(seq![field]) };
    assert(reads_as(Kind::Block, bytes@, 100, seq![outer]));
    law_blocks_that_decode(bytes, res, seq![outer]);
    Seq::lemma_filter_map_singleton(outer, lookup::as_message(5));
    Seq::lemma_filter_map_singleton(field, lookup::as_bytes(1));
    assert(lookup::all_messages(seq![outer], 5) == seq![seq![field]]);
    seq![seq![field]].lemma_flatten_one_element();
    assert(lookup::message(seq![outer], 5) == Some(seq![field]));
    assert(lookup::all_bytes(seq![field], 1) == seq![update]);
}

/// What is read of bytes are the fields that they hold, and bytes that are refused are not read.
pub proof fn law_read_fields(
    kind: Kind,
    input: &[u8],
    depth: u32,
    res: Result<Vec<Field>, Failure>,
    list: Seq<FieldModel>,
)
    requires
        call_ensures(read_fields, (kind, input, 0usize, depth), res),
    ensures
        res is Err <==> is_refused(kind, input@, depth as nat),
        reads_as(kind, input@, depth as nat, list) ==> res is Ok && fields::models(res->Ok_0@)
            == list,
{
}

/// The type that is looked up of a field decides what the field can hold.
pub proof fn law_find_field_type(kind: Kind, tag: u32, res: FieldType)
    requires
        1 <= tag <= 0x1fff_ffff,
        call_ensures(find_field_type, (kind, tag), res),
    ensures
        match res {
            FieldType::Number => holds_number(kind, tag),
            FieldType::Text => holds_text(kind, tag),
            FieldType::Bytes => holds_bytes(kind, tag),
            FieldType::Message(inner) => holds_message(kind, tag, inner),
            FieldType::Encoded(inner) => holds_encoded(kind, tag, inner),
            FieldType::Unknown => passes_over(kind, tag),
        },
{
    match res {
        FieldType::Number => lemma_number_field(kind, tag),
        FieldType::Text => lemma_text_field(kind, tag),
        FieldType::Bytes => lemma_bytes_field(kind, tag),
        FieldType::Message(inner) => lemma_nested_field(kind, tag, inner, false),
        FieldType::Encoded(inner) => lemma_nested_field(kind, tag, inner, true),
        FieldType::Unknown => lemma_unknown_field(kind, tag),
    }
}

/// The names that are looked up are those of the message and of the field.
pub proof fn law_find_names(kind: Kind, tag: u32, message: &'static str, field: &'static str)
    requires
        call_ensures(find_message_name, (kind,), message),
        call_ensures(find_field_name, (kind, tag), field),
    ensures
        is_named(kind, message, tag, field),
{
}

} // verus!
