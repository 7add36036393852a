//! Why reading a message from its fields gives the message back.

use crate::codec::{
    AnyModel, BlockIdModel, BlockModel, ConsensusModel, EventAttributeModel, EventModel,
    HeaderModel, PartSetHeaderModel, ResponseBeginBlockModel, ResponseDeliverTxModel,
    ResponseEndBlockModel, TimestampModel, TxBodyModel, TxModel, TxResultModel,
};
use crate::fields::FieldModel;
use crate::{decode, encode, lookup};
use vstd::prelude::*;

verus! {

/// All fields of the list have the given tag.
spec fn tagged(list: Seq<FieldModel>, tag: u32) -> bool {
    forall|i: int| 0 <= i < list.len() ==> (#[trigger] list[i]).tag == tag
}

/// The tags of the lists, which are different from one another.
spec fn have_tags(pieces: Seq<Seq<FieldModel>>, tags: Seq<u32>) -> bool {
    &&& pieces.len() == tags.len()
    &&& forall|i: int| 0 <= i < pieces.len() ==> tagged(#[trigger] pieces[i], tags[i])
    &&& forall|i: int, j: int|
        0 <= i < j < tags.len() ==> #[trigger] tags[i] != #[trigger] tags[j]
}

/// Nothing is picked out of fields with other tags.
spec fn picks<T>(pick: spec_fn(FieldModel) -> Option<T>, tag: u32) -> bool {
    forall|field: FieldModel| field.tag != tag ==> #[trigger] pick(field) is None
}

proof fn lemma_filter_map_append<T>(
    front: Seq<FieldModel>,
    back: Seq<FieldModel>,
    pick: spec_fn(FieldModel) -> Option<T>,
)
    ensures
        (front + back).filter_map(pick) == front.filter_map(pick) + back.filter_map(pick),
    decreases back.len(),
{
    if back.len() == 0 {
        assert(front + back =~= front);
        assert(front.filter_map(pick) + back.filter_map(pick) =~= front.filter_map(pick));
    } else {
        lemma_filter_map_append(front, back.drop_last(), pick);
        assert((front + back).drop_last() =~= front + back.drop_last());
        assert((front + back).filter_map(pick) =~= front.filter_map(pick) + back.filter_map(pick));
    }
}

proof fn lemma_filter_map_none<T>(
    list: Seq<FieldModel>,
    pick: spec_fn(FieldModel) -> Option<T>,
    tag: u32,
    other: u32,
)
    requires
        tagged(list, other),
        picks(pick, tag),
        tag != other,
    ensures
        list.filter_map(pick) == Seq::<T>::empty(),
    decreases list.len(),
{
    if list.len() > 0 {
        assert(list.last() == list[list.len() - 1]);
        lemma_filter_map_none(list.drop_last(), pick, tag, other);
    }
}

/// What is picked by a tag out of joined lists comes from the list with that tag.
proof fn lemma_pick<T>(
    pieces: Seq<Seq<FieldModel>>,
    tags: Seq<u32>,
    tag: u32,
    pick: spec_fn(FieldModel) -> Option<T>,
    k: int,
)
    requires
        have_tags(pieces, tags),
        picks(pick, tag),
        k < pieces.len(),
        0 <= k ==> tags[k] == tag,
        k < 0 ==> forall|i: int| 0 <= i < tags.len() ==> #[trigger] tags[i] != tag,
    ensures
        pieces.flatten().filter_map(pick) == if 0 <= k {
            pieces[k].filter_map(pick)
        } else {
            Seq::empty()
        },
    decreases pieces.len(),
{
    if pieces.len() > 0 {
        let others = pieces.drop_first();
        let other_tags = tags.drop_first();
        assert forall|i: int| 0 <= i < others.len() implies tagged(
            #[trigger] others[i],
            other_tags[i],
        ) by {
            assert(others[i] == pieces[i + 1]);
        }
        assert forall|i: int, j: int| 0 <= i < j < other_tags.len() implies #[trigger] other_tags[i]
            != #[trigger] other_tags[j] by {
            assert(tags[i + 1] != tags[j + 1]);
        }
        if k == 0 {
            assert forall|i: int| 0 <= i < other_tags.len() implies #[trigger] other_tags[i]
                != tag by {
                assert(tags[0] != tags[i + 1]);
            }
        } else if k < 0 {
            assert forall|i: int| 0 <= i < other_tags.len() implies #[trigger] other_tags[i]
                != tag by {
                assert(tags[i + 1] != tag);
            }
        }
        lemma_pick(others, other_tags, tag, pick, k - 1);
        lemma_filter_map_append(pieces.first(), others.flatten(), pick);
        if k != 0 {
            assert(tags[0] != tag);
            assert(tagged(pieces[0], tags[0]));
            lemma_filter_map_none(pieces.first(), pick, tag, tags[0]);
        }
        assert(pieces.flatten().filter_map(pick) =~= if 0 <= k {
            pieces[k].filter_map(pick)
        } else {
            Seq::empty()
        });
    }
}

proof fn lemma_number(pieces: Seq<Seq<FieldModel>>, tags: Seq<u32>, k: int, number: u64)
    requires
        have_tags(pieces, tags),
        0 <= k < pieces.len(),
        pieces[k] == encode::number(tags[k], number),
    ensures
        lookup::number(pieces.flatten(), tags[k]) == number,
{
    let pick = lookup::as_number(tags[k]);
    lemma_pick(pieces, tags, tags[k], pick, k);
    reveal_with_fuel(Seq::filter_map, 2);
}

proof fn lemma_text(pieces: Seq<Seq<FieldModel>>, tags: Seq<u32>, k: int, text: Seq<char>)
    requires
        have_tags(pieces, tags),
        0 <= k < pieces.len(),
        pieces[k] == encode::text(tags[k], text),
    ensures
        lookup::text(pieces.flatten(), tags[k]) == text,
{
    let pick = lookup::as_text(tags[k]);
    lemma_pick(pieces, tags, tags[k], pick, k);
    reveal_with_fuel(Seq::filter_map, 2);
    assert(lookup::text(pieces.flatten(), tags[k]) =~= text);
}

proof fn lemma_bytes(pieces: Seq<Seq<FieldModel>>, tags: Seq<u32>, k: int, bytes: Seq<u8>)
    requires
        have_tags(pieces, tags),
        0 <= k < pieces.len(),
        pieces[k] == encode::bytes(tags[k], bytes),
    ensures
        lookup::bytes(pieces.flatten(), tags[k]) == bytes,
{
    let pick = lookup::as_bytes(tags[k]);
    lemma_pick(pieces, tags, tags[k], pick, k);
    reveal_with_fuel(Seq::filter_map, 2);
    assert(lookup::bytes(pieces.flatten(), tags[k]) =~= bytes);
}

proof fn lemma_filter_map_all_bytes(tag: u32, all: Seq<Seq<u8>>)
    ensures
        encode::all_bytes(tag, all).filter_map(lookup::as_bytes(tag)) == all,
    decreases all.len(),
{
    let list = encode::all_bytes(tag, all);
    if all.len() > 0 {
        lemma_filter_map_all_bytes(tag, all.drop_last());
        assert(list.drop_last() =~= encode::all_bytes(tag, all.drop_last()));
    }
    assert(list.filter_map(lookup::as_bytes(tag)) =~= all);
}

proof fn lemma_all_bytes(
    pieces: Seq<Seq<FieldModel>>,
    tags: Seq<u32>,
    k: int,
    all: Seq<Seq<u8>>,
)
    requires
        have_tags(pieces, tags),
        0 <= k < pieces.len(),
        pieces[k] == encode::all_bytes(tags[k], all),
    ensures
        lookup::all_bytes(pieces.flatten(), tags[k]) == all,
{
    lemma_pick(pieces, tags, tags[k], lookup::as_bytes(tags[k]), k);
    lemma_filter_map_all_bytes(tags[k], all);
}

proof fn lemma_encoded(
    pieces: Seq<Seq<FieldModel>>,
    tags: Seq<u32>,
    k: int,
    message: Option<Seq<u8>>,
)
    requires
        have_tags(pieces, tags),
        0 <= k < pieces.len(),
        pieces[k] == encode::encoded(tags[k], message),
    ensures
        lookup::encoded(pieces.flatten(), tags[k]) == message,
{
    lemma_pick(pieces, tags, tags[k], lookup::as_bytes(tags[k]), k);
    reveal_with_fuel(Seq::filter_map, 2);
    if let Some(bytes) = message {
        assert(lookup::all_bytes(pieces.flatten(), tags[k]) =~= seq![bytes]);
        seq![bytes].lemma_flatten_one_element();
    }
}

proof fn lemma_message(
    pieces: Seq<Seq<FieldModel>>,
    tags: Seq<u32>,
    k: int,
    message: Option<Seq<FieldModel>>,
)
    requires
        have_tags(pieces, tags),
        0 <= k < pieces.len(),
        pieces[k] == encode::message(tags[k], message),
    ensures
        lookup::message(pieces.flatten(), tags[k]) == message,
{
    lemma_pick(pieces, tags, tags[k], lookup::as_message(tags[k]), k);
    reveal_with_fuel(Seq::filter_map, 2);
    if let Some(content) = message {
        assert(lookup::all_messages(pieces.flatten(), tags[k]) =~= seq![content]);
        seq![content].lemma_flatten_one_element();
    }
}

proof fn lemma_filter_map_all_messages(tag: u32, all: Seq<Seq<FieldModel>>)
    ensures
        encode::all_messages(tag, all).filter_map(lookup::as_message(tag)) == all,
    decreases all.len(),
{
    let list = encode::all_messages(tag, all);
    if all.len() > 0 {
        lemma_filter_map_all_messages(tag, all.drop_last());
        assert(list.drop_last() =~= encode::all_messages(tag, all.drop_last()));
    }
    assert(list.filter_map(lookup::as_message(tag)) =~= all);
}

proof fn lemma_all_messages(
    pieces: Seq<Seq<FieldModel>>,
    tags: Seq<u32>,
    k: int,
    all: Seq<Seq<FieldModel>>,
)
    requires
        have_tags(pieces, tags),
        0 <= k < pieces.len(),
        pieces[k] == encode::all_messages(tags[k], all),
    ensures
        lookup::all_messages(pieces.flatten(), tags[k]) == all,
{
    lemma_pick(pieces, tags, tags[k], lookup::as_message(tags[k]), k);
    lemma_filter_map_all_messages(tags[k], all);
}

proof fn lemma_i64(number: i64)
    ensures
        (number as u64) as i64 == number,
{
    assert((number as u64) as i64 == number) by (bit_vector);
}

proof fn lemma_i32(number: i32)
    ensures
        (number as u64) as i32 == number,
{
    assert((number as u64) as i32 == number) by (bit_vector);
}

/// Reading the fields of a typed payload gives it back.
pub proof fn lemma_any(value: AnyModel)
    ensures
        decode::any_model(encode::any_fields(value)) == value,
{
    let pieces = encode::any_pieces(value);
    let tags = seq![1u32, 2];
    assert(have_tags(pieces, tags));
    lemma_text(pieces, tags, 0, value.type_url);
    lemma_bytes(pieces, tags, 1, value.value);
}

/// Reading the fields of an attribute of an event gives it back.
pub proof fn lemma_event_attribute(value: EventAttributeModel)
    ensures
        decode::event_attribute_model(encode::event_attribute_fields(value)) == value,
{
    let pieces = encode::event_attribute_pieces(value);
    let tags = seq![1u32, 2, 3];
    assert(have_tags(pieces, tags));
    lemma_text(pieces, tags, 0, value.key);
    lemma_text(pieces, tags, 1, value.value);
    lemma_number(pieces, tags, 2, encode::flag_number(value.index));
}

/// Reading the fields of an event gives it back.
pub proof fn lemma_event(value: EventModel)
    ensures
        decode::event_model(encode::event_fields(value)) == value,
{
    let pieces = encode::event_pieces(value);
    let tags = seq![1u32, 2];
    assert(have_tags(pieces, tags));
    lemma_text(pieces, tags, 0, value.event_type);
    let attributes = value.attributes.map_values(
        |content: EventAttributeModel| encode::event_attribute_fields(content),
    );
    lemma_all_messages(pieces, tags, 1, attributes);
    assert forall|i: int| 0 <= i < value.attributes.len() implies decode::event_attribute_model(
        #[trigger] attributes[i],
    ) == value.attributes[i] by {
        lemma_event_attribute(value.attributes[i]);
    }
    assert(attributes.map_values(
        |content: Seq<FieldModel>| decode::event_attribute_model(content),
    ) =~= value.attributes);
}

/// Reading the fields of protocol versions gives it back.
pub proof fn lemma_consensus(value: ConsensusModel)
    ensures
        decode::consensus_model(encode::consensus_fields(value)) == value,
{
    let pieces = encode::consensus_pieces(value);
    let tags = seq![1u32, 2];
    assert(have_tags(pieces, tags));
    lemma_number(pieces, tags, 0, value.block);
    lemma_number(pieces, tags, 1, value.app);
}

/// Reading the fields of a point in time gives it back.
pub proof fn lemma_timestamp(value: TimestampModel)
    ensures
        decode::timestamp_model(encode::timestamp_fields(value)) == value,
{
    let pieces = encode::timestamp_pieces(value);
    let tags = seq![1u32, 2];
    assert(have_tags(pieces, tags));
    lemma_number(pieces, tags, 0, value.seconds as u64);
    lemma_i64(value.seconds);
    lemma_number(pieces, tags, 1, value.nanos as u64);
    lemma_i32(value.nanos);
}

/// Reading the fields of a part set header gives it back.
pub proof fn lemma_part_set_header(value: PartSetHeaderModel)
    ensures
        decode::part_set_header_model(encode::part_set_header_fields(value)) == value,
{
    let pieces = encode::part_set_header_pieces(value);
    let tags = seq![1u32, 2];
    assert(have_tags(pieces, tags));
    lemma_number(pieces, tags, 0, value.total as u64);
    lemma_bytes(pieces, tags, 1, value.hash);
}

/// Reading the fields of a block id gives it back.
pub proof fn lemma_block_id(value: BlockIdModel)
    ensures
        decode::block_id_model(encode::block_id_fields(value)) == value,
{
    let pieces = encode::block_id_pieces(value);
    let tags = seq![1u32, 2];
    assert(have_tags(pieces, tags));
    lemma_bytes(pieces, tags, 0, value.hash);
    if let Some(content) = value.part_set_header {
        lemma_message(pieces, tags, 1, Some(encode::part_set_header_fields(content)));
        lemma_part_set_header(content);
    } else {
        lemma_message(pieces, tags, 1, None);
    }
}

/// Reading the fields of a block header gives it back.
pub proof fn lemma_header(value: HeaderModel)
    ensures
        decode::header_model(encode::header_fields(value)) == value,
{
    let pieces = encode::header_pieces(value);
    let tags = seq![1u32, 2, 3, 4, 5, 6, 7, 8, 9, 10, 11, 12, 13, 14, 15];
    assert(have_tags(pieces, tags));
    if let Some(content) = value.version {
        lemma_message(pieces, tags, 0, Some(encode::consensus_fields(content)));
        lemma_consensus(content);
    } else {
        lemma_message(pieces, tags, 0, None);
    }
    lemma_text(pieces, tags, 1, value.chain_id);
    lemma_number(pieces, tags, 2, value.height);
    if let Some(content) = value.time {
        lemma_message(pieces, tags, 3, Some(encode::timestamp_fields(content)));
        lemma_timestamp(content);
    } else {
        lemma_message(pieces, tags, 3, None);
    }
    if let Some(content) = value.last_block_id {
        lemma_message(pieces, tags, 4, Some(encode::block_id_fields(content)));
        lemma_block_id(content);
    } else {
        lemma_message(pieces, tags, 4, None);
    }
    lemma_bytes(pieces, tags, 5, value.last_commit_hash);
    lemma_bytes(pieces, tags, 6, value.data_hash);
    lemma_bytes(pieces, tags, 7, value.validators_hash);
    lemma_bytes(pieces, tags, 8, value.next_validators_hash);
    lemma_bytes(pieces, tags, 9, value.consensus_hash);
    lemma_bytes(pieces, tags, 10, value.app_hash);
    lemma_bytes(pieces, tags, 11, value.last_results_hash);
    lemma_bytes(pieces, tags, 12, value.evidence_hash);
    lemma_bytes(pieces, tags, 13, value.proposer_address);
    lemma_bytes(pieces, tags, 14, value.hash);
}

/// Reading the fields of a begin-block result gives it back.
pub proof fn lemma_response_begin_block(value: ResponseBeginBlockModel)
    ensures
        decode::response_begin_block_model(encode::response_begin_block_fields(value)) == value,
{
    let pieces = encode::response_begin_block_pieces(value);
    let tags = seq![1u32];
    assert(have_tags(pieces, tags));
    let events = value.events.map_values(
        |content: EventModel| encode::event_fields(content),
    );
    lemma_all_messages(pieces, tags, 0, events);
    assert forall|i: int| 0 <= i < value.events.len() implies decode::event_model(
        #[trigger] events[i],
    ) == value.events[i] by {
        lemma_event(value.events[i]);
    }
    assert(events.map_values(
        |content: Seq<FieldModel>| decode::event_model(content),
    ) =~= value.events);
}

/// Reading the fields of an end-block result gives it back.
pub proof fn lemma_response_end_block(value: ResponseEndBlockModel)
    ensures
        decode::response_end_block_model(encode::response_end_block_fields(value)) == value,
{
    let pieces = encode::response_end_block_pieces(value);
    let tags = seq![1u32, 2, 3];
    assert(have_tags(pieces, tags));
    lemma_all_bytes(pieces, tags, 0, value.validator_updates);
    lemma_encoded(pieces, tags, 1, value.consensus_param_updates);
    let events = value.events.map_values(
        |content: EventModel| encode::event_fields(content),
    );
    lemma_all_messages(pieces, tags, 2, events);
    assert forall|i: int| 0 <= i < value.events.len() implies decode::event_model(
        #[trigger] events[i],
    ) == value.events[i] by {
        lemma_event(value.events[i]);
    }
    assert(events.map_values(
        |content: Seq<FieldModel>| decode::event_model(content),
    ) =~= value.events);
}

/// Reading the fields of the body of a transaction gives it back.
pub proof fn lemma_tx_body(value: TxBodyModel)
    ensures
        decode::tx_body_model(encode::tx_body_fields(value)) == value,
{
    let pieces = encode::tx_body_pieces(value);
    let tags = seq![1u32, 2, 3, 1023, 2047];
    assert(have_tags(pieces, tags));
    let messages = value.messages.map_values(
        |content: AnyModel| encode::any_fields(content),
    );
    lemma_all_messages(pieces, tags, 0, messages);
    assert forall|i: int| 0 <= i < value.messages.len() implies decode::any_model(
        #[trigger] messages[i],
    ) == value.messages[i] by {
        lemma_any(value.messages[i]);
    }
    assert(messages.map_values(
        |content: Seq<FieldModel>| decode::any_model(content),
    ) =~= value.messages);
    lemma_text(pieces, tags, 1, value.memo);
    lemma_number(pieces, tags, 2, value.timeout_height);
    let options = value.extension_options.map_values(
        |content: AnyModel| encode::any_fields(content),
    );
    lemma_all_messages(pieces, tags, 3, options);
    assert forall|i: int| 0 <= i < value.extension_options.len() implies decode::any_model(
        #[trigger] options[i],
    ) == value.extension_options[i] by {
        lemma_any(value.extension_options[i]);
    }
    assert(options.map_values(
        |content: Seq<FieldModel>| decode::any_model(content),
    ) =~= value.extension_options);
    let other_options = value.non_critical_extension_options.map_values(
        |content: AnyModel| encode::any_fields(content),
    );
    lemma_all_messages(pieces, tags, 4, other_options);
    assert forall|i: int|
        0 <= i < value.non_critical_extension_options.len() implies decode::any_model(
        #[trigger] other_options[i],
    ) == value.non_critical_extension_options[i] by {
        lemma_any(value.non_critical_extension_options[i]);
    }
    assert(other_options.map_values(
        |content: Seq<FieldModel>| decode::any_model(content),
    ) =~= value.non_critical_extension_options);
}

/// Reading the fields of a transaction gives it back.
pub proof fn lemma_tx(value: TxModel)
    ensures
        decode::tx_model(encode::tx_fields(value)) == value,
{
    let pieces = encode::tx_pieces(value);
    let tags = seq![1u32, 2, 3];
    assert(have_tags(pieces, tags));
    if let Some(content) = value.body {
        lemma_message(pieces, tags, 0, Some(encode::tx_body_fields(content)));
        lemma_tx_body(content);
    } else {
        lemma_message(pieces, tags, 0, None);
    }
    lemma_encoded(pieces, tags, 1, value.auth_info);
    lemma_all_bytes(pieces, tags, 2, value.signatures);
}

/// Reading the fields of the outcome of a transaction gives it back.
pub proof fn lemma_response_deliver_tx(value: ResponseDeliverTxModel)
    ensures
        decode::response_deliver_tx_model(encode::response_deliver_tx_fields(value)) == value,
{
    let pieces = encode::response_deliver_tx_pieces(value);
    let tags = seq![1u32, 2, 3, 4, 5, 6, 7, 8];
    assert(have_tags(pieces, tags));
    lemma_number(pieces, tags, 0, value.code as u64);
    lemma_bytes(pieces, tags, 1, value.data);
    lemma_text(pieces, tags, 2, value.log);
    lemma_text(pieces, tags, 3, value.info);
    lemma_number(pieces, tags, 4, value.gas_wanted as u64);
    lemma_i64(value.gas_wanted);
    lemma_number(pieces, tags, 5, value.gas_used as u64);
    lemma_i64(value.gas_used);
    let events = value.events.map_values(
        |content: EventModel| encode::event_fields(content),
    );
    lemma_all_messages(pieces, tags, 6, events);
    assert forall|i: int| 0 <= i < value.events.len() implies decode::event_model(
        #[trigger] events[i],
    ) == value.events[i] by {
        lemma_event(value.events[i]);
    }
    assert(events.map_values(
        |content: Seq<FieldModel>| decode::event_model(content),
    ) =~= value.events);
    lemma_text(pieces, tags, 7, value.codespace);
}

/// Reading the fields of a transaction with its outcome gives it back.
pub proof fn lemma_tx_result(value: TxResultModel)
    ensures
        decode::tx_result_model(encode::tx_result_fields(value)) == value,
{
    let pieces = encode::tx_result_pieces(value);
    let tags = seq![1u32, 2, 3, 4, 5];
    assert(have_tags(pieces, tags));
    lemma_number(pieces, tags, 0, value.height);
    lemma_number(pieces, tags, 1, value.index as u64);
    if let Some(content) = value.tx {
        lemma_message(pieces, tags, 2, Some(encode::tx_fields(content)));
        lemma_tx(content);
    } else {
        lemma_message(pieces, tags, 2, None);
    }
    if let Some(content) = value.result {
        lemma_message(pieces, tags, 3, Some(encode::response_deliver_tx_fields(content)));
        lemma_response_deliver_tx(content);
    } else {
        lemma_message(pieces, tags, 3, None);
    }
    lemma_bytes(pieces, tags, 4, value.hash);
}

/// Reading the fields of a block gives it back.
pub proof fn lemma_block(value: BlockModel)
    ensures
        decode::block_model(encode::block_fields(value)) == value,
{
    let pieces = encode::block_pieces(value);
    let tags = seq![1u32, 2, 3, 4, 5, 7, 8];
    assert(have_tags(pieces, tags));
    if let Some(content) = value.header {
        lemma_message(pieces, tags, 0, Some(encode::header_fields(content)));
        lemma_header(content);
    } else {
        lemma_message(pieces, tags, 0, None);
    }
    lemma_encoded(pieces, tags, 1, value.evidence);
    lemma_encoded(pieces, tags, 2, value.last_commit);
    if let Some(content) = value.result_begin_block {
        lemma_message(pieces, tags, 3, Some(encode::response_begin_block_fields(content)));
        lemma_response_begin_block(content);
    } else {
        lemma_message(pieces, tags, 3, None);
    }
    if let Some(content) = value.result_end_block {
        lemma_message(pieces, tags, 4, Some(encode::response_end_block_fields(content)));
        lemma_response_end_block(content);
    } else {
        lemma_message(pieces, tags, 4, None);
    }
    let transactions = value.transactions.map_values(
        |content: TxResultModel| encode::tx_result_fields(content),
    );
    lemma_all_messages(pieces, tags, 5, transactions);
    assert forall|i: int| 0 <= i < value.transactions.len() implies decode::tx_result_model(
        #[trigger] transactions[i],
    ) == value.transactions[i] by {
        lemma_tx_result(value.transactions[i]);
    }
    assert(transactions.map_values(
        |content: Seq<FieldModel>| decode::tx_result_model(content),
    ) =~= value.transactions);
    lemma_all_bytes(pieces, tags, 6, value.validator_updates);
}

} // verus!
