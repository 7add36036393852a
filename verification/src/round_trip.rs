//! Why decoding a block undoes encoding it.

use crate::codec::{
    AnyModel, BlockIdModel, BlockModel, ConsensusModel, EventAttributeModel, EventModel,
    HeaderModel, PartSetHeaderModel, ResponseBeginBlockModel, ResponseDeliverTxModel,
    ResponseEndBlockModel, TimestampModel, TxBodyModel, TxModel, TxResultModel,
};
use crate::fields::{FailureModel, FieldModel, ValueModel};
use crate::schema::{FieldType, Kind};
use crate::{decode, encode, fields, read_back, schema, wire};
use vstd::prelude::*;
use vstd::utf8::*;

verus! {

/// Numbers below this bound take at most `len + 1` bytes, the last of which is below two if it
/// is the one behind `len` others.
spec fn varint_bound(len: nat) -> nat
    decreases len,
{
    if len == 0 {
        2
    } else {
        128 * varint_bound((len - 1) as nat)
    }
}

proof fn lemma_varint_bytes(number: nat, len: nat, tail: Seq<u8>)
    requires
        number < varint_bound(len),
    ensures
        encode::encoded_varint(number).len() >= 1,
        encode::encoded_varint(number).len() <= len + 1,
        encode::encoded_varint(number).len() == len + 1 ==> encode::encoded_varint(number).last()
            < 2,
        wire::continued(encode::encoded_varint(number) + tail) == encode::encoded_varint(
            number,
        ).len() - 1,
        wire::base128(encode::encoded_varint(number)) == number,
    decreases number,
{
    let bytes = encode::encoded_varint(number);
    if number < 128 {
        assert((bytes + tail)[0] == number as u8);
        assert(bytes.skip(1) =~= Seq::empty());
        assert(wire::base128(bytes.skip(1)) == 0);
    } else {
        let rest = encode::encoded_varint(number / 128);
        let first = (number % 128 + 128) as u8;
        assert(len > 0);
        lemma_varint_bytes(number / 128, (len - 1) as nat, tail);
        assert(bytes =~= seq![first] + rest);
        assert((bytes + tail)[0] == first);
        assert((bytes + tail).skip(1) =~= rest + tail);
        assert(bytes.skip(1) =~= rest);
        assert(first % 128 == number % 128);
        assert(bytes.last() == rest.last());
    }
}

/// Reading a number undoes encoding it.
pub proof fn lemma_varint(number: u64, tail: Seq<u8>)
    ensures
        wire::varint(encode::encoded_varint(number as nat) + tail) == Some((number, tail)),
        encode::encoded_varint(number as nat).len() >= 1,
{
    let bytes = encode::encoded_varint(number as nat);
    reveal_with_fuel(varint_bound, 10);
    assert(varint_bound(9) == 18446744073709551616);
    lemma_varint_bytes(number as nat, 9, tail);
    assert((bytes + tail).take(bytes.len() as int) =~= bytes);
    assert((bytes + tail).skip(bytes.len() as int) =~= tail);
    if bytes.len() == 10 {
        assert((bytes + tail)[9] == bytes.last());
    }
}

/// Reading a key undoes encoding it.
pub proof fn lemma_key(tag: u32, wire_type: u64, tail: Seq<u8>)
    requires
        1 <= tag <= 0x1fff_ffff,
        wire_type <= 5,
    ensures
        wire::key(encode::encoded_key(tag, wire_type) + tail) == Some((tag, wire_type, tail)),
        encode::encoded_key(tag, wire_type).len() >= 1,
{
    let number = (tag * 8 + wire_type) as u64;
    lemma_varint(number, tail);
    assert(number / 8 == tag);
    assert(number % 8 == wire_type);
}

/// Reading bytes with their length undoes encoding them.
pub proof fn lemma_bytes(bytes: Seq<u8>, tail: Seq<u8>)
    requires
        bytes.len() <= u64::MAX,
    ensures
        wire::delimited(encode::encoded_bytes(bytes) + tail) == Some((bytes, tail)),
{
    lemma_varint(bytes.len() as u64, bytes + tail);
    assert(encode::encoded_bytes(bytes) + tail =~= encode::encoded_varint(bytes.len()) + (bytes
        + tail));
    assert((bytes + tail).take(bytes.len() as int) =~= bytes);
    assert((bytes + tail).skip(bytes.len() as int) =~= tail);
}

/// What a number at the front of the input is does not depend on what follows it.
pub proof fn lemma_varint_extends(input: Seq<u8>, tail: Seq<u8>)
    ensures
        wire::varint(input) matches Some((number, rest)) ==> wire::varint(input + tail) == Some(
            (number, rest + tail),
        ),
{
    lemma_continued_extends(input, tail);
    let n = wire::continued(input) as int;
    if wire::varint(input) is Some {
        assert((input + tail).take(n + 1) =~= input.take(n + 1));
        assert((input + tail).skip(n + 1) =~= input.skip(n + 1) + tail);
    }
}

proof fn lemma_continued_extends(input: Seq<u8>, tail: Seq<u8>)
    ensures
        wire::continued(input) < input.len() ==> wire::continued(input + tail) == wire::continued(
            input,
        ),
    decreases input.len(),
{
    if input.len() > 0 && input[0] >= 0x80 {
        lemma_continued_extends(input.skip(1), tail);
        assert((input + tail).skip(1) =~= input.skip(1) + tail);
    }
}

pub proof fn lemma_delimited_extends(input: Seq<u8>, tail: Seq<u8>)
    ensures
        wire::delimited(input) matches Some((bytes, rest)) ==> wire::delimited(input + tail)
            == Some((bytes, rest + tail)),
{
    lemma_varint_extends(input, tail);
    if wire::delimited(input) is Some {
        let (len, rest) = wire::varint(input)->0;
        assert((rest + tail).take(len as int) =~= rest.take(len as int));
        assert((rest + tail).skip(len as int) =~= rest.skip(len as int) + tail);
    }
}

pub proof fn lemma_skipped_extends(
    wire_type: u64,
    tag: u32,
    input: Seq<u8>,
    depth: nat,
    tail: Seq<u8>,
)
    ensures
        wire::skipped(wire_type, tag, input, depth) matches Some(rest) ==> wire::skipped(
            wire_type,
            tag,
            input + tail,
            depth,
        ) == Some(rest + tail),
    decreases depth, input.len(), 1nat,
{
    if depth > 0 {
        if wire_type == wire::START_GROUP {
            lemma_skipped_group_extends(tag, input, depth, tail);
        } else {
            lemma_varint_extends(input, tail);
            lemma_delimited_extends(input, tail);
            if input.len() >= 8 {
                assert((input + tail).skip(8) =~= input.skip(8) + tail);
            }
            if input.len() >= 4 {
                assert((input + tail).skip(4) =~= input.skip(4) + tail);
            }
        }
    }
}

proof fn lemma_skipped_group_extends(tag: u32, input: Seq<u8>, depth: nat, tail: Seq<u8>)
    ensures
        wire::skipped_group(tag, input, depth) matches Some(rest) ==> wire::skipped_group(
            tag,
            input + tail,
            depth,
        ) == Some(rest + tail),
    decreases depth, input.len(), 0nat,
{
    lemma_varint_extends(input, tail);
    if let Some((inner_tag, wire_type, rest)) = wire::key(input) {
        if wire_type != wire::END_GROUP && depth > 0 {
            lemma_skipped_extends(wire_type, inner_tag, rest, (depth - 1) as nat, tail);
            if let Some(behind) = wire::skipped(wire_type, inner_tag, rest, (depth - 1) as nat) {
                if behind.len() < input.len() {
                    lemma_skipped_group_extends(tag, behind, depth, tail);
                }
            }
        }
    }
}

pub proof fn lemma_plain_value_extends(
    field_type: FieldType,
    wire_type: u64,
    input: Seq<u8>,
    tail: Seq<u8>,
)
    ensures
        fields::plain_value(field_type, wire_type, input) matches Some((value, rest))
            ==> fields::plain_value(field_type, wire_type, input + tail) == Some(
            (value, rest + tail),
        ),
{
    lemma_varint_extends(input, tail);
    lemma_delimited_extends(input, tail);
}

/// Bytes that are a message are one in front of other bytes too.
pub proof fn lemma_fields_extend(kind: Kind, input: Seq<u8>, stop: nat, depth: nat, tail: Seq<u8>)
    requires
        fields::fields(kind, input, stop, depth) is Ok,
    ensures
        fields::fields(kind, input + tail, stop + tail.len(), depth) == fields::fields(
            kind,
            input,
            stop,
            depth,
        ),
    decreases input.len(),
{
    if input.len() > stop {
        lemma_varint_extends(input, tail);
        wire::lemma_varint_shrinks(input);
        let (tag, wire_type, rest) = wire::key(input)->0;
        let field_type = schema::field_type(kind, tag);
        wire::lemma_varint_shrinks(rest);
        match fields::nested_kind(field_type) {
            Some(inner) => {
                lemma_delimited_extends(rest, tail);
                let (bytes, behind) = wire::delimited(rest)->0;
                lemma_fields_extend(
                    inner,
                    bytes + behind,
                    behind.len(),
                    (depth - 1) as nat,
                    tail,
                );
                assert(bytes + behind + tail =~= bytes + (behind + tail));
                lemma_fields_extend(kind, behind, stop, depth, tail);
            },
            None => if field_type == FieldType::Unknown {
                lemma_skipped_extends(wire_type, tag, rest, depth, tail);
                wire::lemma_skipped_shrinks(wire_type, tag, rest, depth);
                let behind = wire::skipped(wire_type, tag, rest, depth)->0;
                lemma_fields_extend(kind, behind, stop, depth, tail);
            } else {
                lemma_plain_value_extends(field_type, wire_type, rest, tail);
                fields::lemma_plain_value_shrinks(field_type, wire_type, rest);
                let (_, behind) = fields::plain_value(field_type, wire_type, rest)->0;
                lemma_fields_extend(kind, behind, stop, depth, tail);
            },
        }
    }
}

/// The field has a value of the type that it has in messages of the given kind.
pub open spec fn is_typed(kind: Kind, field: FieldModel, depth: nat) -> bool
    decreases depth, 0nat,
{
    match (schema::field_type(kind, field.tag), field.value) {
        (FieldType::Number, ValueModel::Number(_)) => true,
        (FieldType::Text, ValueModel::Text(_)) => true,
        (FieldType::Bytes, ValueModel::Bytes(_)) => true,
        (FieldType::Encoded(inner), ValueModel::Bytes(bytes)) => depth > 0 && encode::is_message(
            inner,
            bytes,
            (depth - 1) as nat,
        ),
        (FieldType::Message(inner), ValueModel::Message(content)) => depth > 0 && are_typed(
            inner,
            content,
            (depth - 1) as nat,
        ),
        _ => false,
    }
}

/// All fields have values of the types that they have in messages of the given kind.
pub open spec fn are_typed(kind: Kind, list: Seq<FieldModel>, depth: nat) -> bool
    decreases depth, 1nat,
{
    forall|i: int| 0 <= i < list.len() ==> is_typed(kind, #[trigger] list[i], depth)
}

/// Reading the input as a message gives a list of fields.
#[verifier::opaque]
spec fn reads(kind: Kind, input: Seq<u8>, stop: nat, depth: nat, list: Seq<FieldModel>) -> bool {
    fields::fields(kind, input, stop, depth) == Ok::<Seq<FieldModel>, FailureModel>(list)
}

/// The input holds a field of a message and other bytes behind it.
spec fn starts_with(input: Seq<u8>, stop: nat, field: FieldModel, behind: Seq<u8>) -> bool {
    &&& input.len() > stop
    &&& encode::encoded_value(field.value).len() <= u64::MAX
    &&& wire::key(input) == Some(
        (field.tag, encode::wire_type(field.value), encode::encoded_value(field.value) + behind),
    )
}

proof fn lemma_reads_nothing(kind: Kind, input: Seq<u8>, depth: nat)
    ensures
        reads(kind, input, input.len(), depth, Seq::empty()),
{
    reveal(reads);
}

proof fn lemma_reads_plain(
    kind: Kind,
    input: Seq<u8>,
    stop: nat,
    depth: nat,
    field: FieldModel,
    behind: Seq<u8>,
    others: Seq<FieldModel>,
)
    requires
        is_typed(kind, field, depth),
        !(field.value is Message),
        !(schema::field_type(kind, field.tag) is Encoded),
        starts_with(input, stop, field, behind),
        reads(kind, behind, stop, depth, others),
    ensures
        reads(kind, input, stop, depth, seq![field] + others),
{
    reveal(reads);
    match field.value {
        ValueModel::Number(number) => {
            lemma_varint(number, behind);
        },
        ValueModel::Text(text) => {
            lemma_bytes(encode_utf8(text), behind);
            encode_utf8_valid_utf8(text);
            encode_utf8_decode_utf8(text);
        },
        ValueModel::Bytes(bytes) => {
            lemma_bytes(bytes, behind);
        },
        ValueModel::Message(_) => {},
    }
}

proof fn lemma_reads_encoded(
    kind: Kind,
    input: Seq<u8>,
    stop: nat,
    depth: nat,
    field: FieldModel,
    behind: Seq<u8>,
    others: Seq<FieldModel>,
)
    requires
        is_typed(kind, field, depth),
        schema::field_type(kind, field.tag) is Encoded,
        starts_with(input, stop, field, behind),
        reads(kind, behind, stop, depth, others),
    ensures
        reads(kind, input, stop, depth, seq![field] + others),
{
    reveal(reads);
    let bytes = field.value->Bytes_0;
    lemma_bytes(bytes, behind);
    lemma_fields_extend(
        schema::field_type(kind, field.tag)->Encoded_0,
        bytes,
        0,
        (depth - 1) as nat,
        behind,
    );
}

proof fn lemma_reads_message(
    kind: Kind,
    input: Seq<u8>,
    stop: nat,
    depth: nat,
    field: FieldModel,
    behind: Seq<u8>,
    others: Seq<FieldModel>,
    inner: Kind,
    content: Seq<FieldModel>,
)
    requires
        depth > 0,
        schema::field_type(kind, field.tag) == FieldType::Message(inner),
        field.value == ValueModel::Message(content),
        starts_with(input, stop, field, behind),
        reads(
            inner,
            encode::encoded_fields(content) + behind,
            behind.len(),
            (depth - 1) as nat,
            content,
        ),
        reads(kind, behind, stop, depth, others),
    ensures
        reads(kind, input, stop, depth, seq![field] + others),
{
    reveal(reads);
    lemma_bytes(encode::encoded_fields(content), behind);
}

proof fn lemma_tag(kind: Kind, field: FieldModel, depth: nat)
    requires
        is_typed(kind, field, depth),
    ensures
        1 <= field.tag <= 2047,
{
    reveal(schema::field);
}

/// A list of fields is encoded as its first field and the others behind it.
proof fn lemma_first_field(kind: Kind, list: Seq<FieldModel>, depth: nat, tail: Seq<u8>)
    requires
        list.len() > 0,
        are_typed(kind, list, depth),
        encode::encoded_fields(list).len() <= u64::MAX,
    ensures
        starts_with(
            encode::encoded_fields(list) + tail,
            tail.len(),
            list[0],
            encode::encoded_fields(list.drop_first()) + tail,
        ),
        encode::encoded_fields(list.drop_first()).len() <= u64::MAX,
        is_typed(kind, list[0], depth),
        are_typed(kind, list.drop_first(), depth),
{
    let field = list[0];
    let others = list.drop_first();
    let input = encode::encoded_fields(list) + tail;
    let behind = encode::encoded_fields(others) + tail;
    let wire_type = encode::wire_type(field.value);
    let value = encode::encoded_value(field.value);
    assert forall|i: int| 0 <= i < others.len() implies is_typed(
        kind,
        #[trigger] others[i],
        depth,
    ) by {
        assert(others[i] == list[i + 1]);
    }
    assert(input =~= encode::encoded_key(field.tag, wire_type) + (value + behind));
    lemma_tag(kind, field, depth);
    lemma_key(field.tag, wire_type, value + behind);
}

proof fn lemma_reads(kind: Kind, list: Seq<FieldModel>, depth: nat, tail: Seq<u8>)
    requires
        are_typed(kind, list, depth),
        encode::encoded_fields(list).len() <= u64::MAX,
    ensures
        reads(kind, encode::encoded_fields(list) + tail, tail.len(), depth, list),
    decreases list,
{
    let input = encode::encoded_fields(list) + tail;
    if list.len() == 0 {
        lemma_reads_nothing(kind, tail, depth);
        assert(input =~= tail);
        assert(list =~= Seq::empty());
    } else {
        let field = list[0];
        let others = list.drop_first();
        let behind = encode::encoded_fields(others) + tail;
        let stop = tail.len();
        lemma_first_field(kind, list, depth, tail);
        lemma_reads(kind, others, depth, tail);
        assert(seq![field] + others =~= list);
        match schema::field_type(kind, field.tag) {
            FieldType::Message(inner) => {
                let content = field.value->Message_0;
                lemma_reads(inner, content, (depth - 1) as nat, behind);
                lemma_reads_message(
                    kind,
                    input,
                    stop,
                    depth,
                    field,
                    behind,
                    others,
                    inner,
                    content,
                );
            },
            FieldType::Encoded(_) => {
                lemma_reads_encoded(kind, input, stop, depth, field, behind, others);
            },
            _ => {
                lemma_reads_plain(kind, input, stop, depth, field, behind, others);
            },
        }
    }
}

/// Reading fields undoes encoding them.
pub proof fn lemma_fields(kind: Kind, list: Seq<FieldModel>, depth: nat, tail: Seq<u8>)
    requires
        are_typed(kind, list, depth),
        encode::encoded_fields(list).len() <= u64::MAX,
    ensures
        fields::fields(kind, encode::encoded_fields(list) + tail, tail.len(), depth) == Ok::<
            Seq<FieldModel>,
            FailureModel,
        >(list),
{
    reveal(reads);
    lemma_reads(kind, list, depth, tail);
}

/// Joined lists of typed fields are typed.
pub proof fn lemma_typed(kind: Kind, pieces: Seq<Seq<FieldModel>>, depth: nat)
    requires
        forall|i: int| 0 <= i < pieces.len() ==> are_typed(kind, #[trigger] pieces[i], depth),
    ensures
        are_typed(kind, pieces.flatten(), depth),
    decreases pieces.len(),
{
    if pieces.len() > 0 {
        let others = pieces.drop_first();
        assert forall|i: int| 0 <= i < others.len() implies are_typed(
            kind,
            #[trigger] others[i],
            depth,
        ) by {
            assert(others[i] == pieces[i + 1]);
        }
        lemma_typed(kind, others, depth);
        let joined = pieces.flatten();
        let first = pieces[0];
        assert(are_typed(kind, first, depth));
        assert forall|i: int| 0 <= i < joined.len() implies is_typed(
            kind,
            #[trigger] joined[i],
            depth,
        ) by {
            if i < first.len() {
                assert(joined[i] == first[i]);
            } else {
                assert(joined[i] == others.flatten()[i - first.len()]);
            }
        }
    }
}

/// The fields of a typed payload are typed.
proof fn lemma_any_typed(value: AnyModel, depth: nat)
    ensures
        are_typed(Kind::Any, encode::any_fields(value), depth),
{
    reveal(schema::field);
    let pieces = encode::any_pieces(value);
    assert(are_typed(Kind::Any, pieces[0], depth));
    assert(are_typed(Kind::Any, pieces[1], depth));
    lemma_typed(Kind::Any, pieces, depth);
}

/// The fields of an attribute of an event are typed.
proof fn lemma_event_attribute_typed(value: EventAttributeModel, depth: nat)
    ensures
        are_typed(Kind::EventAttribute, encode::event_attribute_fields(value), depth),
{
    reveal(schema::field);
    let pieces = encode::event_attribute_pieces(value);
    assert(are_typed(Kind::EventAttribute, pieces[0], depth));
    assert(are_typed(Kind::EventAttribute, pieces[1], depth));
    assert(are_typed(Kind::EventAttribute, pieces[2], depth));
    lemma_typed(Kind::EventAttribute, pieces, depth);
}

/// The fields of an event are typed.
proof fn lemma_event_typed(value: EventModel, depth: nat)
    requires
        depth >= 1,
    ensures
        are_typed(Kind::Event, encode::event_fields(value), depth),
{
    reveal(schema::field);
    let pieces = encode::event_pieces(value);
    assert(are_typed(Kind::Event, pieces[0], depth));
    assert forall|i: int| 0 <= i < value.attributes.len() implies are_typed(
        Kind::EventAttribute,
        encode::event_attribute_fields(#[trigger] value.attributes[i]),
        (depth - 1) as nat,
    ) by {
        lemma_event_attribute_typed(value.attributes[i], (depth - 1) as nat);
    }
    assert(are_typed(Kind::Event, pieces[1], depth));
    lemma_typed(Kind::Event, pieces, depth);
}

/// The fields of protocol versions are typed.
proof fn lemma_consensus_typed(value: ConsensusModel, depth: nat)
    ensures
        are_typed(Kind::Consensus, encode::consensus_fields(value), depth),
{
    reveal(schema::field);
    let pieces = encode::consensus_pieces(value);
    assert(are_typed(Kind::Consensus, pieces[0], depth));
    assert(are_typed(Kind::Consensus, pieces[1], depth));
    lemma_typed(Kind::Consensus, pieces, depth);
}

/// The fields of a point in time are typed.
proof fn lemma_timestamp_typed(value: TimestampModel, depth: nat)
    ensures
        are_typed(Kind::Timestamp, encode::timestamp_fields(value), depth),
{
    reveal(schema::field);
    let pieces = encode::timestamp_pieces(value);
    assert(are_typed(Kind::Timestamp, pieces[0], depth));
    assert(are_typed(Kind::Timestamp, pieces[1], depth));
    lemma_typed(Kind::Timestamp, pieces, depth);
}

/// The fields of a part set header are typed.
proof fn lemma_part_set_header_typed(value: PartSetHeaderModel, depth: nat)
    ensures
        are_typed(Kind::PartSetHeader, encode::part_set_header_fields(value), depth),
{
    reveal(schema::field);
    let pieces = encode::part_set_header_pieces(value);
    assert(are_typed(Kind::PartSetHeader, pieces[0], depth));
    assert(are_typed(Kind::PartSetHeader, pieces[1], depth));
    lemma_typed(Kind::PartSetHeader, pieces, depth);
}

/// The fields of a block id are typed.
proof fn lemma_block_id_typed(value: BlockIdModel, depth: nat)
    requires
        depth >= 1,
    ensures
        are_typed(Kind::BlockId, encode::block_id_fields(value), depth),
{
    reveal(schema::field);
    let pieces = encode::block_id_pieces(value);
    assert(are_typed(Kind::BlockId, pieces[0], depth));
    if let Some(content) = value.part_set_header {
        lemma_part_set_header_typed(content, (depth - 1) as nat);
    }
    assert(are_typed(Kind::BlockId, pieces[1], depth));
    lemma_typed(Kind::BlockId, pieces, depth);
}

/// The fields of a block header are typed.
proof fn lemma_header_typed(value: HeaderModel, depth: nat)
    requires
        depth >= 2,
    ensures
        are_typed(Kind::Header, encode::header_fields(value), depth),
{
    reveal(schema::field);
    let pieces = encode::header_pieces(value);
    if let Some(content) = value.version {
        lemma_consensus_typed(content, (depth - 1) as nat);
    }
    assert(are_typed(Kind::Header, pieces[0], depth));
    assert(are_typed(Kind::Header, pieces[1], depth));
    assert(are_typed(Kind::Header, pieces[2], depth));
    if let Some(content) = value.time {
        lemma_timestamp_typed(content, (depth - 1) as nat);
    }
    assert(are_typed(Kind::Header, pieces[3], depth));
    if let Some(content) = value.last_block_id {
        lemma_block_id_typed(content, (depth - 1) as nat);
    }
    assert(are_typed(Kind::Header, pieces[4], depth));
    assert(are_typed(Kind::Header, pieces[5], depth));
    assert(are_typed(Kind::Header, pieces[6], depth));
    assert(are_typed(Kind::Header, pieces[7], depth));
    assert(are_typed(Kind::Header, pieces[8], depth));
    assert(are_typed(Kind::Header, pieces[9], depth));
    assert(are_typed(Kind::Header, pieces[10], depth));
    assert(are_typed(Kind::Header, pieces[11], depth));
    assert(are_typed(Kind::Header, pieces[12], depth));
    assert(are_typed(Kind::Header, pieces[13], depth));
    assert(are_typed(Kind::Header, pieces[14], depth));
    lemma_typed(Kind::Header, pieces, depth);
}

/// The fields of a begin-block result are typed.
proof fn lemma_response_begin_block_typed(value: ResponseBeginBlockModel, depth: nat)
    requires
        depth >= 2,
    ensures
        are_typed(Kind::ResponseBeginBlock, encode::response_begin_block_fields(value), depth),
{
    reveal(schema::field);
    let pieces = encode::response_begin_block_pieces(value);
    assert forall|i: int| 0 <= i < value.events.len() implies are_typed(
        Kind::Event,
        encode::event_fields(#[trigger] value.events[i]),
        (depth - 1) as nat,
    ) by {
        lemma_event_typed(value.events[i], (depth - 1) as nat);
    }
    assert(are_typed(Kind::ResponseBeginBlock, pieces[0], depth));
    lemma_typed(Kind::ResponseBeginBlock, pieces, depth);
}

/// The fields of an end-block result are typed.
proof fn lemma_response_end_block_typed(value: ResponseEndBlockModel, depth: nat)
    requires
        depth >= 2,
        encode::end_block_is_encodable(value, (depth - 1) as nat),
    ensures
        are_typed(Kind::ResponseEndBlock, encode::response_end_block_fields(value), depth),
{
    reveal(schema::field);
    let pieces = encode::response_end_block_pieces(value);
    assert(are_typed(Kind::ResponseEndBlock, pieces[0], depth));
    assert(are_typed(Kind::ResponseEndBlock, pieces[1], depth));
    assert forall|i: int| 0 <= i < value.events.len() implies are_typed(
        Kind::Event,
        encode::event_fields(#[trigger] value.events[i]),
        (depth - 1) as nat,
    ) by {
        lemma_event_typed(value.events[i], (depth - 1) as nat);
    }
    assert(are_typed(Kind::ResponseEndBlock, pieces[2], depth));
    lemma_typed(Kind::ResponseEndBlock, pieces, depth);
}

/// The fields of the body of a transaction are typed.
proof fn lemma_tx_body_typed(value: TxBodyModel, depth: nat)
    requires
        depth >= 1,
    ensures
        are_typed(Kind::TxBody, encode::tx_body_fields(value), depth),
{
    reveal(schema::field);
    let pieces = encode::tx_body_pieces(value);
    assert forall|i: int| 0 <= i < value.messages.len() implies are_typed(
        Kind::Any,
        encode::any_fields(#[trigger] value.messages[i]),
        (depth - 1) as nat,
    ) by {
        lemma_any_typed(value.messages[i], (depth - 1) as nat);
    }
    assert(are_typed(Kind::TxBody, pieces[0], depth));
    assert(are_typed(Kind::TxBody, pieces[1], depth));
    assert(are_typed(Kind::TxBody, pieces[2], depth));
    assert forall|i: int| 0 <= i < value.extension_options.len() implies are_typed(
        Kind::Any,
        encode::any_fields(#[trigger] value.extension_options[i]),
        (depth - 1) as nat,
    ) by {
        lemma_any_typed(value.extension_options[i], (depth - 1) as nat);
    }
    assert(are_typed(Kind::TxBody, pieces[3], depth));
    assert forall|i: int| 0 <= i < value.non_critical_extension_options.len() implies are_typed(
        Kind::Any,
        encode::any_fields(#[trigger] value.non_critical_extension_options[i]),
        (depth - 1) as nat,
    ) by {
        lemma_any_typed(value.non_critical_extension_options[i], (depth - 1) as nat);
    }
    assert(are_typed(Kind::TxBody, pieces[4], depth));
    lemma_typed(Kind::TxBody, pieces, depth);
}

/// The fields of a transaction are typed.
proof fn lemma_tx_typed(value: TxModel, depth: nat)
    requires
        depth >= 2,
        encode::may_be_message(Kind::AuthInfo, value.auth_info, (depth - 1) as nat),
    ensures
        are_typed(Kind::Tx, encode::tx_fields(value), depth),
{
    reveal(schema::field);
    let pieces = encode::tx_pieces(value);
    if let Some(content) = value.body {
        lemma_tx_body_typed(content, (depth - 1) as nat);
    }
    assert(are_typed(Kind::Tx, pieces[0], depth));
    assert(are_typed(Kind::Tx, pieces[1], depth));
    assert(are_typed(Kind::Tx, pieces[2], depth));
    lemma_typed(Kind::Tx, pieces, depth);
}

/// The fields of the outcome of a transaction are typed.
proof fn lemma_response_deliver_tx_typed(value: ResponseDeliverTxModel, depth: nat)
    requires
        depth >= 2,
    ensures
        are_typed(Kind::ResponseDeliverTx, encode::response_deliver_tx_fields(value), depth),
{
    reveal(schema::field);
    let pieces = encode::response_deliver_tx_pieces(value);
    assert(are_typed(Kind::ResponseDeliverTx, pieces[0], depth));
    assert(are_typed(Kind::ResponseDeliverTx, pieces[1], depth));
    assert(are_typed(Kind::ResponseDeliverTx, pieces[2], depth));
    assert(are_typed(Kind::ResponseDeliverTx, pieces[3], depth));
    assert(are_typed(Kind::ResponseDeliverTx, pieces[4], depth));
    assert(are_typed(Kind::ResponseDeliverTx, pieces[5], depth));
    assert forall|i: int| 0 <= i < value.events.len() implies are_typed(
        Kind::Event,
        encode::event_fields(#[trigger] value.events[i]),
        (depth - 1) as nat,
    ) by {
        lemma_event_typed(value.events[i], (depth - 1) as nat);
    }
    assert(are_typed(Kind::ResponseDeliverTx, pieces[6], depth));
    assert(are_typed(Kind::ResponseDeliverTx, pieces[7], depth));
    lemma_typed(Kind::ResponseDeliverTx, pieces, depth);
}

/// The fields of a transaction with its outcome are typed.
proof fn lemma_tx_result_typed(value: TxResultModel, depth: nat)
    requires
        depth >= 3,
        encode::tx_is_encodable(value, (depth - 2) as nat),
    ensures
        are_typed(Kind::TxResult, encode::tx_result_fields(value), depth),
{
    reveal(schema::field);
    let pieces = encode::tx_result_pieces(value);
    assert(are_typed(Kind::TxResult, pieces[0], depth));
    assert(are_typed(Kind::TxResult, pieces[1], depth));
    if let Some(content) = value.tx {
        lemma_tx_typed(content, (depth - 1) as nat);
    }
    assert(are_typed(Kind::TxResult, pieces[2], depth));
    if let Some(content) = value.result {
        lemma_response_deliver_tx_typed(content, (depth - 1) as nat);
    }
    assert(are_typed(Kind::TxResult, pieces[3], depth));
    assert(are_typed(Kind::TxResult, pieces[4], depth));
    lemma_typed(Kind::TxResult, pieces, depth);
}

/// The fields of a block are typed.
proof fn lemma_block_typed(value: BlockModel, depth: nat)
    requires
        depth == wire::RECURSION_LIMIT,
        encode::is_encodable(value),
    ensures
        are_typed(Kind::Block, encode::block_fields(value), depth),
{
    reveal(schema::field);
    let pieces = encode::block_pieces(value);
    if let Some(content) = value.header {
        lemma_header_typed(content, (depth - 1) as nat);
    }
    assert(are_typed(Kind::Block, pieces[0], depth));
    assert(are_typed(Kind::Block, pieces[1], depth));
    assert(are_typed(Kind::Block, pieces[2], depth));
    if let Some(content) = value.result_begin_block {
        lemma_response_begin_block_typed(content, (depth - 1) as nat);
    }
    assert(are_typed(Kind::Block, pieces[3], depth));
    if let Some(content) = value.result_end_block {
        lemma_response_end_block_typed(content, (depth - 1) as nat);
    }
    assert(are_typed(Kind::Block, pieces[4], depth));
    assert forall|i: int| 0 <= i < value.transactions.len() implies are_typed(
        Kind::TxResult,
        encode::tx_result_fields(#[trigger] value.transactions[i]),
        (depth - 1) as nat,
    ) by {
        lemma_tx_result_typed(value.transactions[i], (depth - 1) as nat);
    }
    assert(are_typed(Kind::Block, pieces[5], depth));
    assert(are_typed(Kind::Block, pieces[6], depth));
    lemma_typed(Kind::Block, pieces, depth);
}

/// Decoding a block undoes encoding it.
pub proof fn lemma_block_round_trip(block: BlockModel)
    requires
        encode::is_encodable(block),
    ensures
        decode::decoded_block(encode::encoded_block(block)) == Some(block),
{
    let list = encode::block_fields(block);
    let depth = wire::RECURSION_LIMIT as nat;
    lemma_block_typed(block, depth);
    lemma_fields(Kind::Block, list, depth, Seq::empty());
    assert(encode::encoded_block(block) + Seq::<u8>::empty() =~= encode::encoded_block(block));
    read_back::lemma_block(block);
}

} // verus!
