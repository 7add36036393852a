//! Why the parts of a decoded block that stay encoded are messages.

use crate::fields::FieldModel;
use crate::schema::{FieldType, Kind};
use crate::{decode, encode, fields, lookup, round_trip, schema, wire};
use vstd::prelude::*;

verus! {

proof fn lemma_continued_ends(input: Seq<u8>, tail: Seq<u8>)
    requires
        wire::continued(input + tail) < input.len(),
    ensures
        wire::continued(input) == wire::continued(input + tail),
    decreases input.len(),
{
    if input.len() > 0 && input[0] >= 0x80 {
        assert((input + tail)[0] == input[0]);
        assert((input + tail).skip(1) =~= input.skip(1) + tail);
        lemma_continued_ends(input.skip(1), tail);
    } else {
        assert((input + tail)[0] == input[0]);
    }
}

/// A number that ends in front of the last bytes does not depend on them.
proof fn lemma_varint_ends(input: Seq<u8>, tail: Seq<u8>)
    requires
        wire::varint(input + tail) matches Some((_, rest)) && rest.len() >= tail.len(),
    ensures
        match wire::varint(input) {
            Some((number, rest)) => wire::varint(input + tail) == Some((number, rest + tail)),
            None => false,
        },
{
    let n = wire::continued(input + tail) as int;
    lemma_continued_ends(input, tail);
    assert((input + tail).take(n + 1) =~= input.take(n + 1));
    assert((input + tail).skip(n + 1) =~= input.skip(n + 1) + tail);
}

proof fn lemma_delimited_ends(input: Seq<u8>, tail: Seq<u8>)
    requires
        wire::delimited(input + tail) matches Some((_, rest)) && rest.len() >= tail.len(),
    ensures
        match wire::delimited(input) {
            Some((bytes, rest)) => wire::delimited(input + tail) == Some((bytes, rest + tail)),
            None => false,
        },
{
    lemma_varint_ends(input, tail);
    let (len, rest) = wire::varint(input)->0;
    assert((rest + tail).take(len as int) =~= rest.take(len as int));
    assert((rest + tail).skip(len as int) =~= rest.skip(len as int) + tail);
}

proof fn lemma_skipped_ends(wire_type: u64, tag: u32, input: Seq<u8>, depth: nat, tail: Seq<u8>)
    requires
        wire::skipped(wire_type, tag, input + tail, depth) matches Some(rest) && rest.len()
            >= tail.len(),
    ensures
        match wire::skipped(wire_type, tag, input, depth) {
            Some(rest) => wire::skipped(wire_type, tag, input + tail, depth) == Some(rest + tail),
            None => false,
        },
    decreases depth, input.len(), 1nat,
{
    if wire_type == wire::START_GROUP {
        lemma_skipped_group_ends(tag, input, depth, tail);
    } else if wire_type == wire::VARINT {
        lemma_varint_ends(input, tail);
    } else if wire_type == wire::LENGTH_DELIMITED {
        lemma_delimited_ends(input, tail);
    } else if wire_type == wire::SIXTY_FOUR_BIT {
        assert((input + tail).skip(8) =~= input.skip(8) + tail);
    } else {
        assert((input + tail).skip(4) =~= input.skip(4) + tail);
    }
}

proof fn lemma_skipped_group_ends(tag: u32, input: Seq<u8>, depth: nat, tail: Seq<u8>)
    requires
        wire::skipped_group(tag, input + tail, depth) matches Some(rest) && rest.len()
            >= tail.len(),
    ensures
        match wire::skipped_group(tag, input, depth) {
            Some(rest) => wire::skipped_group(tag, input + tail, depth) == Some(rest + tail),
            None => false,
        },
    decreases depth, input.len(), 0nat,
{
    let (inner_tag, wire_type, rest) = wire::key(input + tail)->0;
    wire::lemma_varint_shrinks(input + tail);
    if wire_type == wire::END_GROUP {
        lemma_varint_ends(input, tail);
    } else {
        let behind = wire::skipped(wire_type, inner_tag, rest, (depth - 1) as nat)->0;
        wire::lemma_skipped_shrinks(wire_type, inner_tag, rest, (depth - 1) as nat);
        wire::lemma_skipped_group_shrinks(tag, behind, depth);
        lemma_varint_ends(input, tail);
        wire::lemma_varint_shrinks(input);
        match wire::key(input) {
            Some((_, _, own)) => {
                assert(rest == own + tail);
                lemma_skipped_ends(wire_type, inner_tag, own, (depth - 1) as nat, tail);
                wire::lemma_skipped_shrinks(wire_type, inner_tag, own, (depth - 1) as nat);
                let own_behind = wire::skipped(wire_type, inner_tag, own, (depth - 1) as nat)->0;
                assert(behind == own_behind + tail);
                lemma_skipped_group_ends(tag, own_behind, depth, tail);
            },
            None => {},
        }
    }
}

proof fn lemma_plain_value_ends(
    field_type: FieldType,
    wire_type: u64,
    input: Seq<u8>,
    tail: Seq<u8>,
)
    requires
        fields::plain_value(field_type, wire_type, input + tail) matches Some((_, rest))
            && rest.len() >= tail.len(),
    ensures
        match fields::plain_value(field_type, wire_type, input) {
            Some((value, rest)) => fields::plain_value(field_type, wire_type, input + tail)
                == Some((value, rest + tail)),
            None => false,
        },
{
    if field_type == FieldType::Number {
        lemma_varint_ends(input, tail);
    } else {
        lemma_delimited_ends(input, tail);
    }
}

proof fn lemma_fields_len(kind: Kind, input: Seq<u8>, stop: nat, depth: nat)
    requires
        fields::fields(kind, input, stop, depth) is Ok,
    ensures
        input.len() >= stop,
{
}

/// A message that ends in front of other bytes does not depend on them.
pub proof fn lemma_fields_end(kind: Kind, input: Seq<u8>, stop: nat, depth: nat, tail: Seq<u8>)
    requires
        fields::fields(kind, input + tail, stop + tail.len(), depth) is Ok,
    ensures
        fields::fields(kind, input, stop, depth) == fields::fields(
            kind,
            input + tail,
            stop + tail.len(),
            depth,
        ),
    decreases input.len(),
{
    let end = stop + tail.len();
    if input.len() > stop {
        let (tag, wire_type, rest) = wire::key(input + tail)->0;
        let field_type = schema::field_type(kind, tag);
        wire::lemma_varint_shrinks(input + tail);
        wire::lemma_varint_shrinks(rest);
        wire::lemma_skipped_shrinks(wire_type, tag, rest, depth);
        fields::lemma_plain_value_shrinks(field_type, wire_type, rest);
        match fields::nested_kind(field_type) {
            Some(_) => match wire::delimited(rest) {
                Some((_, behind)) => lemma_fields_len(kind, behind, end, depth),
                None => {},
            },
            None => if field_type == FieldType::Unknown {
                let behind = wire::skipped(wire_type, tag, rest, depth)->0;
                lemma_fields_len(kind, behind, end, depth);
            } else {
                match fields::plain_value(field_type, wire_type, rest) {
                    Some((_, behind)) => lemma_fields_len(kind, behind, end, depth),
                    None => {},
                }
            },
        }
        lemma_varint_ends(input, tail);
        wire::lemma_varint_shrinks(input);
        let own = match wire::key(input) {
            Some((_, _, own)) => own,
            None => arbitrary(),
        };
        assert(rest == own + tail);
        wire::lemma_varint_shrinks(own);
        match fields::nested_kind(field_type) {
            Some(inner) => {
                lemma_delimited_ends(own, tail);
                let (bytes, behind) = wire::delimited(own)->0;
                assert(bytes + (behind + tail) =~= bytes + behind + tail);
                lemma_fields_end(inner, bytes + behind, behind.len(), (depth - 1) as nat, tail);
                lemma_fields_end(kind, behind, stop, depth, tail);
            },
            None => if field_type == FieldType::Unknown {
                lemma_skipped_ends(wire_type, tag, own, depth, tail);
                wire::lemma_skipped_shrinks(wire_type, tag, own, depth);
                let behind = wire::skipped(wire_type, tag, own, depth)->0;
                lemma_fields_end(kind, behind, stop, depth, tail);
            } else {
                lemma_plain_value_ends(field_type, wire_type, own, tail);
                fields::lemma_plain_value_shrinks(field_type, wire_type, own);
                let (_, behind) = fields::plain_value(field_type, wire_type, own)->0;
                lemma_fields_end(kind, behind, stop, depth, tail);
            },
        }
    }
}

proof fn lemma_prepend_typed(kind: Kind, head: FieldModel, others: Seq<FieldModel>, depth: nat)
    requires
        round_trip::is_typed(kind, head, depth),
        round_trip::are_typed(kind, others, depth),
    ensures
        round_trip::are_typed(kind, seq![head] + others, depth),
{
    let list = seq![head] + others;
    assert forall|i: int| 0 <= i < list.len() implies round_trip::is_typed(
        kind,
        #[trigger] list[i],
        depth,
    ) by {
        if i > 0 {
            assert(list[i] == others[i - 1]);
        }
    }
}

/// The fields that are read have values of the types that they have in messages of the kind.
pub proof fn lemma_fields_are_typed(kind: Kind, input: Seq<u8>, stop: nat, depth: nat)
    requires
        fields::fields(kind, input, stop, depth) is Ok,
    ensures
        round_trip::are_typed(kind, fields::fields(kind, input, stop, depth)->Ok_0, depth),
    decreases input.len(),
{
    if input.len() > stop {
        let (tag, wire_type, rest) = wire::key(input)->0;
        let field_type = schema::field_type(kind, tag);
        wire::lemma_varint_shrinks(input);
        wire::lemma_varint_shrinks(rest);
        match fields::nested_kind(field_type) {
            Some(inner) => {
                let (bytes, behind) = wire::delimited(rest)->0;
                let inside = fields::fields(
                    inner,
                    bytes + behind,
                    behind.len(),
                    (depth - 1) as nat,
                );
                let value = fields::nested_value(field_type, bytes, inside->Ok_0);
                lemma_fields_are_typed(inner, bytes + behind, behind.len(), (depth - 1) as nat);
                lemma_fields_end(inner, bytes, 0, (depth - 1) as nat, behind);
                lemma_fields_are_typed(kind, behind, stop, depth);
                lemma_prepend_typed(
                    kind,
                    FieldModel { tag, value },
                    fields::fields(kind, behind, stop, depth)->Ok_0,
                    depth,
                );
            },
            None => if field_type == FieldType::Unknown {
                wire::lemma_skipped_shrinks(wire_type, tag, rest, depth);
                let behind = wire::skipped(wire_type, tag, rest, depth)->0;
                lemma_fields_are_typed(kind, behind, stop, depth);
            } else {
                fields::lemma_plain_value_shrinks(field_type, wire_type, rest);
                let (value, behind) = fields::plain_value(field_type, wire_type, rest)->0;
                lemma_fields_are_typed(kind, behind, stop, depth);
                lemma_prepend_typed(
                    kind,
                    FieldModel { tag, value },
                    fields::fields(kind, behind, stop, depth)->Ok_0,
                    depth,
                );
            },
        }
    }
}

/// Two messages of a kind joined are a message of that kind.
#[verifier::spinoff_prover]
#[verifier::rlimit(40)]
proof fn lemma_join(kind: Kind, front: Seq<u8>, back: Seq<u8>, depth: nat)
    requires
        encode::is_message(kind, front, depth),
        encode::is_message(kind, back, depth),
    ensures
        encode::is_message(kind, front + back, depth),
    decreases front.len(),
{
    if front.len() == 0 {
        assert(front + back =~= back);
    } else {
        let (tag, wire_type, rest) = wire::key(front)->0;
        let field_type = schema::field_type(kind, tag);
        round_trip::lemma_varint_extends(front, back);
        wire::lemma_varint_shrinks(front);
        wire::lemma_varint_shrinks(rest);
        match fields::nested_kind(field_type) {
            Some(inner) => {
                let (bytes, behind) = wire::delimited(rest)->0;
                round_trip::lemma_delimited_extends(rest, back);
                round_trip::lemma_fields_extend(
                    inner,
                    bytes + behind,
                    behind.len(),
                    (depth - 1) as nat,
                    back,
                );
                assert(bytes + behind + back =~= bytes + (behind + back));
                lemma_join(kind, behind, back, depth);
            },
            None => if field_type == FieldType::Unknown {
                round_trip::lemma_skipped_extends(wire_type, tag, rest, depth, back);
                wire::lemma_skipped_shrinks(wire_type, tag, rest, depth);
                lemma_join(kind, wire::skipped(wire_type, tag, rest, depth)->0, back, depth);
            } else {
                round_trip::lemma_plain_value_extends(field_type, wire_type, rest, back);
                fields::lemma_plain_value_shrinks(field_type, wire_type, rest);
                let (_, behind) = fields::plain_value(field_type, wire_type, rest)->0;
                lemma_join(kind, behind, back, depth);
            },
        }
    }
}

proof fn lemma_join_all(kind: Kind, all: Seq<Seq<u8>>, depth: nat)
    requires
        encode::are_messages(kind, all, depth),
    ensures
        encode::is_message(kind, all.flatten(), depth),
    decreases all.len(),
{
    if all.len() > 0 {
        let others = all.drop_first();
        assert forall|i: int| 0 <= i < others.len() implies encode::is_message(
            kind,
            #[trigger] others[i],
            depth,
        ) by {
            assert(others[i] == all[i + 1]);
        }
        lemma_join_all(kind, others, depth);
        assert(encode::is_message(kind, all[0], depth));
        lemma_join(kind, all[0], others.flatten(), depth);
    }
}

/// What typed fields hold of messages that stay encoded.
proof fn lemma_encoded_parts(
    kind: Kind,
    list: Seq<FieldModel>,
    tag: u32,
    inner: Kind,
    depth: nat,
)
    requires
        round_trip::are_typed(kind, list, depth),
        schema::field_type(kind, tag) == FieldType::Encoded(inner),
        depth > 0,
    ensures
        encode::are_messages(inner, lookup::all_bytes(list, tag), (depth - 1) as nat),
        encode::may_be_message(inner, lookup::encoded(list, tag), (depth - 1) as nat),
{
    let all = lookup::all_bytes(list, tag);
    assert forall|i: int| 0 <= i < all.len() implies encode::is_message(
        inner,
        #[trigger] all[i],
        (depth - 1) as nat,
    ) by {
        let bytes = all[i];
        let pick = lookup::as_bytes(tag);
        assert(all.contains(bytes));
        list.lemma_filter_map_contains(pick, bytes);
        let field = choose|field: FieldModel| #[trigger]
            list.contains(field) && pick(field) == Some(bytes);
        let k = choose|k: int| 0 <= k < list.len() && list[k] == field;
        assert(round_trip::is_typed(kind, list[k], depth));
    }
    lemma_join_all(inner, all, (depth - 1) as nat);
}

/// What typed fields hold of messages.
proof fn lemma_message_parts(
    kind: Kind,
    list: Seq<FieldModel>,
    tag: u32,
    inner: Kind,
    depth: nat,
)
    requires
        round_trip::are_typed(kind, list, depth),
        schema::field_type(kind, tag) == FieldType::Message(inner),
        depth > 0,
    ensures
        forall|i: int|
            0 <= i < lookup::all_messages(list, tag).len() ==> round_trip::are_typed(
                inner,
                #[trigger] lookup::all_messages(list, tag)[i],
                (depth - 1) as nat,
            ),
        match lookup::message(list, tag) {
            Some(content) => round_trip::are_typed(inner, content, (depth - 1) as nat),
            None => true,
        },
{
    let all = lookup::all_messages(list, tag);
    assert forall|i: int| 0 <= i < all.len() implies round_trip::are_typed(
        inner,
        #[trigger] all[i],
        (depth - 1) as nat,
    ) by {
        let content = all[i];
        let pick = lookup::as_message(tag);
        assert(all.contains(content));
        list.lemma_filter_map_contains(pick, content);
        let field = choose|field: FieldModel| #[trigger]
            list.contains(field) && pick(field) == Some(content);
        let k = choose|k: int| 0 <= k < list.len() && list[k] == field;
        assert(round_trip::is_typed(kind, list[k], depth));
    }
    round_trip::lemma_typed(inner, all, (depth - 1) as nat);
}

proof fn lemma_end_block_parts(list: Seq<FieldModel>, depth: nat)
    requires
        round_trip::are_typed(Kind::ResponseEndBlock, list, depth),
        depth > 0,
    ensures
        encode::end_block_is_encodable(
            decode::response_end_block_model(list),
            (depth - 1) as nat,
        ),
{
    reveal(schema::field);
    lemma_encoded_parts(Kind::ResponseEndBlock, list, 1, Kind::ValidatorUpdate, depth);
    lemma_encoded_parts(Kind::ResponseEndBlock, list, 2, Kind::ConsensusParams, depth);
}

proof fn lemma_tx_parts(list: Seq<FieldModel>, depth: nat)
    requires
        round_trip::are_typed(Kind::TxResult, list, depth),
        depth > 1,
    ensures
        encode::tx_is_encodable(decode::tx_result_model(list), (depth - 2) as nat),
{
    reveal(schema::field);
    lemma_message_parts(Kind::TxResult, list, 3, Kind::Tx, depth);
    if let Some(content) = lookup::message(list, 3) {
        lemma_encoded_parts(Kind::Tx, content, 2, Kind::AuthInfo, (depth - 1) as nat);
    }
}

/// The parts of a decoded block that stay encoded are messages.
pub proof fn lemma_block_parts(input: Seq<u8>)
    ensures
        decode::decoded_block(input) matches Some(block) ==> encode::parts_are_messages(block),
{
    if decode::block_fields(input) is Ok {
        reveal(schema::field);
        let list = decode::block_fields(input)->Ok_0;
        let depth = wire::RECURSION_LIMIT as nat;
        let block = decode::block_model(list);
        lemma_fields_are_typed(Kind::Block, input, 0, depth);
        lemma_encoded_parts(Kind::Block, list, 2, Kind::EvidenceList, depth);
        lemma_encoded_parts(Kind::Block, list, 3, Kind::Commit, depth);
        lemma_encoded_parts(Kind::Block, list, 8, Kind::Validator, depth);
        lemma_message_parts(Kind::Block, list, 5, Kind::ResponseEndBlock, depth);
        lemma_message_parts(Kind::Block, list, 7, Kind::TxResult, depth);
        if let Some(content) = lookup::message(list, 5) {
            lemma_end_block_parts(content, (depth - 1) as nat);
        }
        assert forall|i: int| 0 <= i < block.transactions.len() implies encode::tx_is_encodable(
            #[trigger] block.transactions[i],
            (depth - 3) as nat,
        ) by {
            lemma_tx_parts(lookup::all_messages(list, 7)[i], (depth - 1) as nat);
        }
    }
}

} // verus!
