//! How the fields of a message make up the message.
//!
//! Fields are read one after the other. A message without fields has nothing but defaults. Each
//! further field changes the one thing that it stands for, and nothing else: a number, a text or
//! bytes take the place of what was there, further elements are added at the end of a list, and a
//! message is merged into the one that is there. Fields that a message does not have change
//! nothing.

use crate::codec::{
    AnyModel, BlockIdModel, BlockModel, ConsensusModel, EventAttributeModel, EventModel,
    HeaderModel, PartSetHeaderModel, ResponseBeginBlockModel, ResponseDeliverTxModel,
    ResponseEndBlockModel, TimestampModel, TxBodyModel, TxModel, TxResultModel,
};
use crate::fields::{FieldModel, ValueModel};
use crate::{decode, lookup};
use vstd::prelude::*;

verus! {

/// A field with a number.
pub open spec fn number_field(tag: u32, number: u64) -> FieldModel {
    FieldModel { tag, value: ValueModel::Number(number) }
}

/// A field with a text.
pub open spec fn text_field(tag: u32, text: Seq<char>) -> FieldModel {
    FieldModel { tag, value: ValueModel::Text(text) }
}

/// A field with bytes.
pub open spec fn bytes_field(tag: u32, bytes: Seq<u8>) -> FieldModel {
    FieldModel { tag, value: ValueModel::Bytes(bytes) }
}

/// A field with a message.
pub open spec fn message_field(tag: u32, content: Seq<FieldModel>) -> FieldModel {
    FieldModel { tag, value: ValueModel::Message(content) }
}

/// Bytes that are joined to others, if there are any.
pub open spec fn joined(old: Option<Seq<u8>>, bytes: Seq<u8>) -> Option<Seq<u8>> {
    match old {
        Some(old) => Some(old + bytes),
        None => Some(bytes),
    }
}

proof fn lemma_pick_push<T>(
    list: Seq<FieldModel>,
    field: FieldModel,
    pick: spec_fn(FieldModel) -> Option<T>,
)
    ensures
        list.push(field).filter_map(pick) == match pick(field) {
            Some(value) => list.filter_map(pick).push(value),
            None => list.filter_map(pick),
        },
{
    let longer = list.push(field);
    assert(longer.drop_last() =~= list);
    if let Some(value) = pick(field) {
        assert(list.filter_map(pick) + seq![value] =~= list.filter_map(pick).push(value));
    }
}

/// What one more field changes.
proof fn lemma_push(list: Seq<FieldModel>, field: FieldModel)
    ensures
        forall|tag: u32| #[trigger]
            lookup::number(list.push(field), tag) == if field.tag == tag && field.value is Number {
                field.value->Number_0
            } else {
                lookup::number(list, tag)
            },
        forall|tag: u32| #[trigger]
            lookup::text(list.push(field), tag) == if field.tag == tag && field.value is Text {
                field.value->Text_0
            } else {
                lookup::text(list, tag)
            },
        forall|tag: u32| #[trigger]
            lookup::bytes(list.push(field), tag) == if field.tag == tag && field.value is Bytes {
                field.value->Bytes_0
            } else {
                lookup::bytes(list, tag)
            },
        forall|tag: u32| #[trigger]
            lookup::all_bytes(list.push(field), tag) == if field.tag == tag && field.value
                is Bytes {
                lookup::all_bytes(list, tag).push(field.value->Bytes_0)
            } else {
                lookup::all_bytes(list, tag)
            },
        forall|tag: u32| #[trigger]
            lookup::encoded(list.push(field), tag) == if field.tag == tag && field.value is Bytes {
                joined(lookup::encoded(list, tag), field.value->Bytes_0)
            } else {
                lookup::encoded(list, tag)
            },
        forall|tag: u32| #[trigger]
            lookup::all_messages(list.push(field), tag) == if field.tag == tag && field.value
                is Message {
                lookup::all_messages(list, tag).push(field.value->Message_0)
            } else {
                lookup::all_messages(list, tag)
            },
        forall|tag: u32| #[trigger]
            lookup::message(list.push(field), tag) == if field.tag == tag && field.value
                is Message {
                match lookup::message(list, tag) {
                    Some(old) => Some(old + field.value->Message_0),
                    None => Some(field.value->Message_0),
                }
            } else {
                lookup::message(list, tag)
            },
{
    assert forall|tag: u32| #[trigger]
        lookup::number(list.push(field), tag) == if field.tag == tag && field.value is Number {
            field.value->Number_0
        } else {
            lookup::number(list, tag)
        } by {
        lemma_pick_push(list, field, lookup::as_number(tag));
    }
    assert forall|tag: u32| #[trigger]
        lookup::text(list.push(field), tag) == if field.tag == tag && field.value is Text {
            field.value->Text_0
        } else {
            lookup::text(list, tag)
        } by {
        lemma_pick_push(list, field, lookup::as_text(tag));
    }
    assert forall|tag: u32| #[trigger]
        lookup::bytes(list.push(field), tag) == if field.tag == tag && field.value is Bytes {
            field.value->Bytes_0
        } else {
            lookup::bytes(list, tag)
        } by {
        lemma_pick_push(list, field, lookup::as_bytes(tag));
    }
    assert forall|tag: u32| #[trigger]
        lookup::all_bytes(list.push(field), tag) == if field.tag == tag && field.value is Bytes {
            lookup::all_bytes(list, tag).push(field.value->Bytes_0)
        } else {
            lookup::all_bytes(list, tag)
        } by {
        lemma_pick_push(list, field, lookup::as_bytes(tag));
    }
    assert forall|tag: u32| #[trigger]
        lookup::encoded(list.push(field), tag) == if field.tag == tag && field.value is Bytes {
            joined(lookup::encoded(list, tag), field.value->Bytes_0)
        } else {
            lookup::encoded(list, tag)
        } by {
        lemma_pick_push(list, field, lookup::as_bytes(tag));
        let all = lookup::all_bytes(list, tag);
        if field.tag == tag && field.value is Bytes {
            let bytes = field.value->Bytes_0;
            all.lemma_flatten_push(bytes);
            if all.len() == 0 {
                assert(all.flatten() + bytes =~= bytes);
            }
        }
    }
    assert forall|tag: u32| #[trigger]
        lookup::all_messages(list.push(field), tag) == if field.tag == tag && field.value
            is Message {
            lookup::all_messages(list, tag).push(field.value->Message_0)
        } else {
            lookup::all_messages(list, tag)
        } by {
        lemma_pick_push(list, field, lookup::as_message(tag));
    }
    assert forall|tag: u32| #[trigger]
        lookup::message(list.push(field), tag) == if field.tag == tag && field.value is Message {
            match lookup::message(list, tag) {
                Some(old) => Some(old + field.value->Message_0),
                None => Some(field.value->Message_0),
            }
        } else {
            lookup::message(list, tag)
        } by {
        lemma_pick_push(list, field, lookup::as_message(tag));
        let all = lookup::all_messages(list, tag);
        if field.tag == tag && field.value is Message {
            let content = field.value->Message_0;
            all.lemma_flatten_push(content);
            if all.len() == 0 {
                assert(all.flatten() + content =~= content);
            }
        }
    }
}

/// A typed payload without fields.
pub proof fn law_empty_any()
    ensures
        decode::any_model(Seq::empty()) == (AnyModel {
            type_url: Seq::empty(),
            value: Seq::empty(),
        }),
{
}

/// What the field with tag 1 is to a typed payload.
pub proof fn law_any_type_url(
    list: Seq<FieldModel>,
    text: Seq<char>,
)
    ensures
        ({
            let old = decode::any_model(list);
            let new = decode::any_model(list.push(text_field(1, text)));
            new == (AnyModel {
                type_url: text,
                ..old
            })
        }),
{
    lemma_push(list, text_field(1, text));
}

/// What the field with tag 2 is to a typed payload.
pub proof fn law_any_value(
    list: Seq<FieldModel>,
    bytes: Seq<u8>,
)
    ensures
        ({
            let old = decode::any_model(list);
            let new = decode::any_model(list.push(bytes_field(2, bytes)));
            new == (AnyModel {
                value: bytes,
                ..old
            })
        }),
{
    lemma_push(list, bytes_field(2, bytes));
}

/// Fields with other tags are nothing to a typed payload.
pub proof fn law_any_other(list: Seq<FieldModel>, field: FieldModel)
    requires
        field.tag != 1,
        field.tag != 2,
    ensures
        decode::any_model(list.push(field))
            == decode::any_model(list),
{
    lemma_push(list, field);
}

/// An attribute of an event without fields.
pub proof fn law_empty_event_attribute()
    ensures
        decode::event_attribute_model(Seq::empty()) == (EventAttributeModel {
            key: Seq::empty(),
            value: Seq::empty(),
            index: false,
        }),
{
}

/// What the field with tag 1 is to an attribute of an event.
pub proof fn law_event_attribute_key(
    list: Seq<FieldModel>,
    text: Seq<char>,
)
    ensures
        ({
            let old = decode::event_attribute_model(list);
            let new = decode::event_attribute_model(list.push(text_field(1, text)));
            new == (EventAttributeModel {
                key: text,
                ..old
            })
        }),
{
    lemma_push(list, text_field(1, text));
}

/// What the field with tag 2 is to an attribute of an event.
pub proof fn law_event_attribute_value(
    list: Seq<FieldModel>,
    text: Seq<char>,
)
    ensures
        ({
            let old = decode::event_attribute_model(list);
            let new = decode::event_attribute_model(list.push(text_field(2, text)));
            new == (EventAttributeModel {
                value: text,
                ..old
            })
        }),
{
    lemma_push(list, text_field(2, text));
}

/// What the field with tag 3 is to an attribute of an event.
pub proof fn law_event_attribute_index(
    list: Seq<FieldModel>,
    number: u64,
)
    ensures
        ({
            let old = decode::event_attribute_model(list);
            let new = decode::event_attribute_model(list.push(number_field(3, number)));
            new == (EventAttributeModel {
                index: number != 0,
                ..old
            })
        }),
{
    lemma_push(list, number_field(3, number));
}

/// Fields with other tags are nothing to an attribute of an event.
pub proof fn law_event_attribute_other(list: Seq<FieldModel>, field: FieldModel)
    requires
        field.tag != 1,
        field.tag != 2,
        field.tag != 3,
    ensures
        decode::event_attribute_model(list.push(field))
            == decode::event_attribute_model(list),
{
    lemma_push(list, field);
}

/// An event without fields.
pub proof fn law_empty_event()
    ensures
        decode::event_model(Seq::empty()) == (EventModel {
            event_type: Seq::empty(),
            attributes: Seq::empty(),
        }),
{
    assert(decode::event_model(Seq::empty()).attributes =~= Seq::empty());
}

/// What the field with tag 1 is to an event.
pub proof fn law_event_event_type(
    list: Seq<FieldModel>,
    text: Seq<char>,
)
    ensures
        ({
            let old = decode::event_model(list);
            let new = decode::event_model(list.push(text_field(1, text)));
            new == (EventModel {
                event_type: text,
                ..old
            })
        }),
{
    lemma_push(list, text_field(1, text));
}

/// What the field with tag 2 is to an event.
pub proof fn law_event_attributes(
    list: Seq<FieldModel>,
    content: Seq<FieldModel>,
)
    ensures
        ({
            let old = decode::event_model(list);
            let new = decode::event_model(list.push(message_field(2, content)));
            new == (EventModel {
                attributes: old.attributes.push(decode::event_attribute_model(content)),
                ..old
            })
        }),
{
    lemma_push(list, message_field(2, content));
    let old = decode::event_model(list);
    let new = decode::event_model(list.push(message_field(2, content)));
    assert(new.attributes =~= old.attributes.push(decode::event_attribute_model(content)));
}

/// Fields with other tags are nothing to an event.
pub proof fn law_event_other(list: Seq<FieldModel>, field: FieldModel)
    requires
        field.tag != 1,
        field.tag != 2,
    ensures
        decode::event_model(list.push(field))
            == decode::event_model(list),
{
    lemma_push(list, field);
}

/// Protocol versions without fields.
pub proof fn law_empty_consensus()
    ensures
        decode::consensus_model(Seq::empty()) == (ConsensusModel {
            block: 0,
            app: 0,
        }),
{
}

/// What the field with tag 1 is to protocol versions.
pub proof fn law_consensus_block(
    list: Seq<FieldModel>,
    number: u64,
)
    ensures
        ({
            let old = decode::consensus_model(list);
            let new = decode::consensus_model(list.push(number_field(1, number)));
            new == (ConsensusModel {
                block: number,
                ..old
            })
        }),
{
    lemma_push(list, number_field(1, number));
}

/// What the field with tag 2 is to protocol versions.
pub proof fn law_consensus_app(
    list: Seq<FieldModel>,
    number: u64,
)
    ensures
        ({
            let old = decode::consensus_model(list);
            let new = decode::consensus_model(list.push(number_field(2, number)));
            new == (ConsensusModel {
                app: number,
                ..old
            })
        }),
{
    lemma_push(list, number_field(2, number));
}

/// Fields with other tags are nothing to protocol versions.
pub proof fn law_consensus_other(list: Seq<FieldModel>, field: FieldModel)
    requires
        field.tag != 1,
        field.tag != 2,
    ensures
        decode::consensus_model(list.push(field))
            == decode::consensus_model(list),
{
    lemma_push(list, field);
}

/// A point in time without fields.
pub proof fn law_empty_timestamp()
    ensures
        decode::timestamp_model(Seq::empty()) == (TimestampModel {
            seconds: 0,
            nanos: 0,
        }),
{
}

/// What the field with tag 1 is to a point in time.
pub proof fn law_timestamp_seconds(
    list: Seq<FieldModel>,
    number: u64,
)
    ensures
        ({
            let old = decode::timestamp_model(list);
            let new = decode::timestamp_model(list.push(number_field(1, number)));
            new == (TimestampModel {
                seconds: number as i64,
                ..old
            })
        }),
{
    lemma_push(list, number_field(1, number));
}

/// What the field with tag 2 is to a point in time.
pub proof fn law_timestamp_nanos(
    list: Seq<FieldModel>,
    number: u64,
)
    ensures
        ({
            let old = decode::timestamp_model(list);
            let new = decode::timestamp_model(list.push(number_field(2, number)));
            new == (TimestampModel {
                nanos: number as i32,
                ..old
            })
        }),
{
    lemma_push(list, number_field(2, number));
}

/// Fields with other tags are nothing to a point in time.
pub proof fn law_timestamp_other(list: Seq<FieldModel>, field: FieldModel)
    requires
        field.tag != 1,
        field.tag != 2,
    ensures
        decode::timestamp_model(list.push(field))
            == decode::timestamp_model(list),
{
    lemma_push(list, field);
}

/// A part set header without fields.
pub proof fn law_empty_part_set_header()
    ensures
        decode::part_set_header_model(Seq::empty()) == (PartSetHeaderModel {
            total: 0,
            hash: Seq::empty(),
        }),
{
}

/// What the field with tag 1 is to a part set header.
pub proof fn law_part_set_header_total(
    list: Seq<FieldModel>,
    number: u64,
)
    ensures
        ({
            let old = decode::part_set_header_model(list);
            let new = decode::part_set_header_model(list.push(number_field(1, number)));
            new == (PartSetHeaderModel {
                total: number as u32,
                ..old
            })
        }),
{
    lemma_push(list, number_field(1, number));
}

/// What the field with tag 2 is to a part set header.
pub proof fn law_part_set_header_hash(
    list: Seq<FieldModel>,
    bytes: Seq<u8>,
)
    ensures
        ({
            let old = decode::part_set_header_model(list);
            let new = decode::part_set_header_model(list.push(bytes_field(2, bytes)));
            new == (PartSetHeaderModel {
                hash: bytes,
                ..old
            })
        }),
{
    lemma_push(list, bytes_field(2, bytes));
}

/// Fields with other tags are nothing to a part set header.
pub proof fn law_part_set_header_other(list: Seq<FieldModel>, field: FieldModel)
    requires
        field.tag != 1,
        field.tag != 2,
    ensures
        decode::part_set_header_model(list.push(field))
            == decode::part_set_header_model(list),
{
    lemma_push(list, field);
}

/// A block id without fields.
pub proof fn law_empty_block_id()
    ensures
        decode::block_id_model(Seq::empty()) == (BlockIdModel {
            hash: Seq::empty(),
            part_set_header: None,
        }),
{
}

/// What the field with tag 1 is to a block id.
pub proof fn law_block_id_hash(
    list: Seq<FieldModel>,
    bytes: Seq<u8>,
)
    ensures
        ({
            let old = decode::block_id_model(list);
            let new = decode::block_id_model(list.push(bytes_field(1, bytes)));
            new == (BlockIdModel {
                hash: bytes,
                ..old
            })
        }),
{
    lemma_push(list, bytes_field(1, bytes));
}

/// What the field with tag 2 is to a block id.
pub proof fn law_block_id_part_set_header(
    list: Seq<FieldModel>,
    content: Seq<FieldModel>,
    more: Seq<FieldModel>,
)
    ensures
        ({
            let old = decode::block_id_model(list);
            let new = decode::block_id_model(list.push(message_field(2, content)));
            match lookup::message(list, 2) {
                Some(earlier) => {
                    &&& old.part_set_header is Some
                    &&& new == (BlockIdModel {
                        part_set_header: Some(decode::part_set_header_model(earlier + content)),
                        ..old
                    })
                },
                None => {
                    &&& old.part_set_header is None
                    &&& new == (BlockIdModel {
                        part_set_header: Some(decode::part_set_header_model(content)),
                        ..old
                    })
                },
            }
        }),
        decode::block_id_model(
            list.push(message_field(2, content)).push(message_field(2, more)),
        ) == decode::block_id_model(list.push(message_field(2, content + more))),
{
    let first = message_field(2, content);
    let second = message_field(2, more);
    let both = message_field(2, content + more);
    lemma_push(list, first);
    lemma_push(list.push(first), second);
    lemma_push(list, both);
    if let Some(old) = lookup::message(list, 2) {
        assert(old + content + more =~= old + (content + more));
    }
}

/// Fields with other tags are nothing to a block id.
pub proof fn law_block_id_other(list: Seq<FieldModel>, field: FieldModel)
    requires
        field.tag != 1,
        field.tag != 2,
    ensures
        decode::block_id_model(list.push(field))
            == decode::block_id_model(list),
{
    lemma_push(list, field);
}

/// A block header without fields.
pub proof fn law_empty_header()
    ensures
        decode::header_model(Seq::empty()) == (HeaderModel {
            version: None,
            chain_id: Seq::empty(),
            height: 0,
            time: None,
            last_block_id: None,
            last_commit_hash: Seq::empty(),
            data_hash: Seq::empty(),
            validators_hash: Seq::empty(),
            next_validators_hash: Seq::empty(),
            consensus_hash: Seq::empty(),
            app_hash: Seq::empty(),
            last_results_hash: Seq::empty(),
            evidence_hash: Seq::empty(),
            proposer_address: Seq::empty(),
            hash: Seq::empty(),
        }),
{
}

/// What the field with tag 1 is to a block header.
pub proof fn law_header_version(
    list: Seq<FieldModel>,
    content: Seq<FieldModel>,
    more: Seq<FieldModel>,
)
    ensures
        ({
            let old = decode::header_model(list);
            let new = decode::header_model(list.push(message_field(1, content)));
            match lookup::message(list, 1) {
                Some(earlier) => {
                    &&& old.version is Some
                    &&& new == (HeaderModel {
                        version: Some(decode::consensus_model(earlier + content)),
                        ..old
                    })
                },
                None => {
                    &&& old.version is None
                    &&& new == (HeaderModel {
                        version: Some(decode::consensus_model(content)),
                        ..old
                    })
                },
            }
        }),
        decode::header_model(
            list.push(message_field(1, content)).push(message_field(1, more)),
        ) == decode::header_model(list.push(message_field(1, content + more))),
{
    let first = message_field(1, content);
    let second = message_field(1, more);
    let both = message_field(1, content + more);
    lemma_push(list, first);
    lemma_push(list.push(first), second);
    lemma_push(list, both);
    if let Some(old) = lookup::message(list, 1) {
        assert(old + content + more =~= old + (content + more));
    }
}

/// What the field with tag 2 is to a block header.
pub proof fn law_header_chain_id(
    list: Seq<FieldModel>,
    text: Seq<char>,
)
    ensures
        ({
            let old = decode::header_model(list);
            let new = decode::header_model(list.push(text_field(2, text)));
            new == (HeaderModel {
                chain_id: text,
                ..old
            })
        }),
{
    lemma_push(list, text_field(2, text));
}

/// What the field with tag 3 is to a block header.
pub proof fn law_header_height(
    list: Seq<FieldModel>,
    number: u64,
)
    ensures
        ({
            let old = decode::header_model(list);
            let new = decode::header_model(list.push(number_field(3, number)));
            new == (HeaderModel {
                height: number,
                ..old
            })
        }),
{
    lemma_push(list, number_field(3, number));
}

/// What the field with tag 4 is to a block header.
pub proof fn law_header_time(
    list: Seq<FieldModel>,
    content: Seq<FieldModel>,
    more: Seq<FieldModel>,
)
    ensures
        ({
            let old = decode::header_model(list);
            let new = decode::header_model(list.push(message_field(4, content)));
            match lookup::message(list, 4) {
                Some(earlier) => {
                    &&& old.time is Some
                    &&& new == (HeaderModel {
                        time: Some(decode::timestamp_model(earlier + content)),
                        ..old
                    })
                },
                None => {
                    &&& old.time is None
                    &&& new == (HeaderModel {
                        time: Some(decode::timestamp_model(content)),
                        ..old
                    })
                },
            }
        }),
        decode::header_model(
            list.push(message_field(4, content)).push(message_field(4, more)),
        ) == decode::header_model(list.push(message_field(4, content + more))),
{
    let first = message_field(4, content);
    let second = message_field(4, more);
    let both = message_field(4, content + more);
    lemma_push(list, first);
    lemma_push(list.push(first), second);
    lemma_push(list, both);
    if let Some(old) = lookup::message(list, 4) {
        assert(old + content + more =~= old + (content + more));
    }
}

/// What the field with tag 5 is to a block header.
pub proof fn law_header_last_block_id(
    list: Seq<FieldModel>,
    content: Seq<FieldModel>,
    more: Seq<FieldModel>,
)
    ensures
        ({
            let old = decode::header_model(list);
            let new = decode::header_model(list.push(message_field(5, content)));
            match lookup::message(list, 5) {
                Some(earlier) => {
                    &&& old.last_block_id is Some
                    &&& new == (HeaderModel {
                        last_block_id: Some(decode::block_id_model(earlier + content)),
                        ..old
                    })
                },
                None => {
                    &&& old.last_block_id is None
                    &&& new == (HeaderModel {
                        last_block_id: Some(decode::block_id_model(content)),
                        ..old
                    })
                },
            }
        }),
        decode::header_model(
            list.push(message_field(5, content)).push(message_field(5, more)),
        ) == decode::header_model(list.push(message_field(5, content + more))),
{
    let first = message_field(5, content);
    let second = message_field(5, more);
    let both = message_field(5, content + more);
    lemma_push(list, first);
    lemma_push(list.push(first), second);
    lemma_push(list, both);
    if let Some(old) = lookup::message(list, 5) {
        assert(old + content + more =~= old + (content + more));
    }
}

/// What the field with tag 6 is to a block header.
pub proof fn law_header_last_commit_hash(
    list: Seq<FieldModel>,
    bytes: Seq<u8>,
)
    ensures
        ({
            let old = decode::header_model(list);
            let new = decode::header_model(list.push(bytes_field(6, bytes)));
            new == (HeaderModel {
                last_commit_hash: bytes,
                ..old
            })
        }),
{
    lemma_push(list, bytes_field(6, bytes));
}

/// What the field with tag 7 is to a block header.
pub proof fn law_header_data_hash(
    list: Seq<FieldModel>,
    bytes: Seq<u8>,
)
    ensures
        ({
            let old = decode::header_model(list);
            let new = decode::header_model(list.push(bytes_field(7, bytes)));
            new == (HeaderModel {
                data_hash: bytes,
                ..old
            })
        }),
{
    lemma_push(list, bytes_field(7, bytes));
}

/// What the field with tag 8 is to a block header.
pub proof fn law_header_validators_hash(
    list: Seq<FieldModel>,
    bytes: Seq<u8>,
)
    ensures
        ({
            let old = decode::header_model(list);
            let new = decode::header_model(list.push(bytes_field(8, bytes)));
            new == (HeaderModel {
                validators_hash: bytes,
                ..old
            })
        }),
{
    lemma_push(list, bytes_field(8, bytes));
}

/// What the field with tag 9 is to a block header.
pub proof fn law_header_next_validators_hash(
    list: Seq<FieldModel>,
    bytes: Seq<u8>,
)
    ensures
        ({
            let old = decode::header_model(list);
            let new = decode::header_model(list.push(bytes_field(9, bytes)));
            new == (HeaderModel {
                next_validators_hash: bytes,
                ..old
            })
        }),
{
    lemma_push(list, bytes_field(9, bytes));
}

/// What the field with tag 10 is to a block header.
pub proof fn law_header_consensus_hash(
    list: Seq<FieldModel>,
    bytes: Seq<u8>,
)
    ensures
        ({
            let old = decode::header_model(list);
            let new = decode::header_model(list.push(bytes_field(10, bytes)));
            new == (HeaderModel {
                consensus_hash: bytes,
                ..old
            })
        }),
{
    lemma_push(list, bytes_field(10, bytes));
}

/// What the field with tag 11 is to a block header.
pub proof fn law_header_app_hash(
    list: Seq<FieldModel>,
    bytes: Seq<u8>,
)
    ensures
        ({
            let old = decode::header_model(list);
            let new = decode::header_model(list.push(bytes_field(11, bytes)));
            new == (HeaderModel {
                app_hash: bytes,
                ..old
            })
        }),
{
    lemma_push(list, bytes_field(11, bytes));
}

/// What the field with tag 12 is to a block header.
pub proof fn law_header_last_results_hash(
    list: Seq<FieldModel>,
    bytes: Seq<u8>,
)
    ensures
        ({
            let old = decode::header_model(list);
            let new = decode::header_model(list.push(bytes_field(12, bytes)));
            new == (HeaderModel {
                last_results_hash: bytes,
                ..old
            })
        }),
{
    lemma_push(list, bytes_field(12, bytes));
}

/// What the field with tag 13 is to a block header.
pub proof fn law_header_evidence_hash(
    list: Seq<FieldModel>,
    bytes: Seq<u8>,
)
    ensures
        ({
            let old = decode::header_model(list);
            let new = decode::header_model(list.push(bytes_field(13, bytes)));
            new == (HeaderModel {
                evidence_hash: bytes,
                ..old
            })
        }),
{
    lemma_push(list, bytes_field(13, bytes));
}

/// What the field with tag 14 is to a block header.
pub proof fn law_header_proposer_address(
    list: Seq<FieldModel>,
    bytes: Seq<u8>,
)
    ensures
        ({
            let old = decode::header_model(list);
            let new = decode::header_model(list.push(bytes_field(14, bytes)));
            new == (HeaderModel {
                proposer_address: bytes,
                ..old
            })
        }),
{
    lemma_push(list, bytes_field(14, bytes));
}

/// What the field with tag 15 is to a block header.
pub proof fn law_header_hash(
    list: Seq<FieldModel>,
    bytes: Seq<u8>,
)
    ensures
        ({
            let old = decode::header_model(list);
            let new = decode::header_model(list.push(bytes_field(15, bytes)));
            new == (HeaderModel {
                hash: bytes,
                ..old
            })
        }),
{
    lemma_push(list, bytes_field(15, bytes));
}

/// Fields with other tags are nothing to a block header.
pub proof fn law_header_other(list: Seq<FieldModel>, field: FieldModel)
    requires
        field.tag != 1,
        field.tag != 2,
        field.tag != 3,
        field.tag != 4,
        field.tag != 5,
        field.tag != 6,
        field.tag != 7,
        field.tag != 8,
        field.tag != 9,
        field.tag != 10,
        field.tag != 11,
        field.tag != 12,
        field.tag != 13,
        field.tag != 14,
        field.tag != 15,
    ensures
        decode::header_model(list.push(field))
            == decode::header_model(list),
{
    lemma_push(list, field);
}

/// A begin-block result without fields.
pub proof fn law_empty_response_begin_block()
    ensures
        decode::response_begin_block_model(Seq::empty()) == (ResponseBeginBlockModel {
            events: Seq::empty(),
        }),
{
    assert(decode::response_begin_block_model(Seq::empty()).events =~= Seq::empty());
}

/// What the field with tag 1 is to a begin-block result.
pub proof fn law_response_begin_block_events(
    list: Seq<FieldModel>,
    content: Seq<FieldModel>,
)
    ensures
        ({
            let old = decode::response_begin_block_model(list);
            let new = decode::response_begin_block_model(list.push(message_field(1, content)));
            new == (ResponseBeginBlockModel {
                events: old.events.push(decode::event_model(content)),
                ..old
            })
        }),
{
    lemma_push(list, message_field(1, content));
    let old = decode::response_begin_block_model(list);
    let new = decode::response_begin_block_model(list.push(message_field(1, content)));
    assert(new.events =~= old.events.push(decode::event_model(content)));
}

/// Fields with other tags are nothing to a begin-block result.
pub proof fn law_response_begin_block_other(list: Seq<FieldModel>, field: FieldModel)
    requires
        field.tag != 1,
    ensures
        decode::response_begin_block_model(list.push(field))
            == decode::response_begin_block_model(list),
{
    lemma_push(list, field);
}

/// An end-block result without fields.
pub proof fn law_empty_response_end_block()
    ensures
        decode::response_end_block_model(Seq::empty()) == (ResponseEndBlockModel {
            validator_updates: Seq::empty(),
            consensus_param_updates: None,
            events: Seq::empty(),
        }),
{
    assert(decode::response_end_block_model(Seq::empty()).events =~= Seq::empty());
}

/// What the field with tag 1 is to an end-block result.
pub proof fn law_response_end_block_validator_updates(
    list: Seq<FieldModel>,
    bytes: Seq<u8>,
)
    ensures
        ({
            let old = decode::response_end_block_model(list);
            let new = decode::response_end_block_model(list.push(bytes_field(1, bytes)));
            new == (ResponseEndBlockModel {
                validator_updates: old.validator_updates.push(bytes),
                ..old
            })
        }),
{
    lemma_push(list, bytes_field(1, bytes));
}

/// What the field with tag 2 is to an end-block result.
pub proof fn law_response_end_block_consensus_param_updates(
    list: Seq<FieldModel>,
    bytes: Seq<u8>,
)
    ensures
        ({
            let old = decode::response_end_block_model(list);
            let new = decode::response_end_block_model(list.push(bytes_field(2, bytes)));
            new == (ResponseEndBlockModel {
                consensus_param_updates: joined(old.consensus_param_updates, bytes),
                ..old
            })
        }),
{
    lemma_push(list, bytes_field(2, bytes));
}

/// What the field with tag 3 is to an end-block result.
pub proof fn law_response_end_block_events(
    list: Seq<FieldModel>,
    content: Seq<FieldModel>,
)
    ensures
        ({
            let old = decode::response_end_block_model(list);
            let new = decode::response_end_block_model(list.push(message_field(3, content)));
            new == (ResponseEndBlockModel {
                events: old.events.push(decode::event_model(content)),
                ..old
            })
        }),
{
    lemma_push(list, message_field(3, content));
    let old = decode::response_end_block_model(list);
    let new = decode::response_end_block_model(list.push(message_field(3, content)));
    assert(new.events =~= old.events.push(decode::event_model(content)));
}

/// Fields with other tags are nothing to an end-block result.
pub proof fn law_response_end_block_other(list: Seq<FieldModel>, field: FieldModel)
    requires
        field.tag != 1,
        field.tag != 2,
        field.tag != 3,
    ensures
        decode::response_end_block_model(list.push(field))
            == decode::response_end_block_model(list),
{
    lemma_push(list, field);
}

/// The body of a transaction without fields.
pub proof fn law_empty_tx_body()
    ensures
        decode::tx_body_model(Seq::empty()) == (TxBodyModel {
            messages: Seq::empty(),
            memo: Seq::empty(),
            timeout_height: 0,
            extension_options: Seq::empty(),
            non_critical_extension_options: Seq::empty(),
        }),
{
    assert(decode::tx_body_model(Seq::empty()).messages =~= Seq::empty());
    assert(decode::tx_body_model(Seq::empty()).extension_options =~= Seq::empty());
    assert(decode::tx_body_model(Seq::empty()).non_critical_extension_options =~= Seq::empty());
}

/// What the field with tag 1 is to the body of a transaction.
pub proof fn law_tx_body_messages(
    list: Seq<FieldModel>,
    content: Seq<FieldModel>,
)
    ensures
        ({
            let old = decode::tx_body_model(list);
            let new = decode::tx_body_model(list.push(message_field(1, content)));
            new == (TxBodyModel {
                messages: old.messages.push(decode::any_model(content)),
                ..old
            })
        }),
{
    lemma_push(list, message_field(1, content));
    let old = decode::tx_body_model(list);
    let new = decode::tx_body_model(list.push(message_field(1, content)));
    assert(new.messages =~= old.messages.push(decode::any_model(content)));
}

/// What the field with tag 2 is to the body of a transaction.
pub proof fn law_tx_body_memo(
    list: Seq<FieldModel>,
    text: Seq<char>,
)
    ensures
        ({
            let old = decode::tx_body_model(list);
            let new = decode::tx_body_model(list.push(text_field(2, text)));
            new == (TxBodyModel {
                memo: text,
                ..old
            })
        }),
{
    lemma_push(list, text_field(2, text));
}

/// What the field with tag 3 is to the body of a transaction.
pub proof fn law_tx_body_timeout_height(
    list: Seq<FieldModel>,
    number: u64,
)
    ensures
        ({
            let old = decode::tx_body_model(list);
            let new = decode::tx_body_model(list.push(number_field(3, number)));
            new == (TxBodyModel {
                timeout_height: number,
                ..old
            })
        }),
{
    lemma_push(list, number_field(3, number));
}

/// What the field with tag 1023 is to the body of a transaction.
pub proof fn law_tx_body_extension_options(
    list: Seq<FieldModel>,
    content: Seq<FieldModel>,
)
    ensures
        ({
            let old = decode::tx_body_model(list);
            let new = decode::tx_body_model(list.push(message_field(1023, content)));
            new == (TxBodyModel {
                extension_options: old.extension_options.push(decode::any_model(content)),
                ..old
            })
        }),
{
    lemma_push(list, message_field(1023, content));
    let old = decode::tx_body_model(list);
    let new = decode::tx_body_model(list.push(message_field(1023, content)));
    assert(new.extension_options =~= old.extension_options.push(decode::any_model(content)));
}

/// What the field with tag 2047 is to the body of a transaction.
pub proof fn law_tx_body_non_critical_extension_options(
    list: Seq<FieldModel>,
    content: Seq<FieldModel>,
)
    ensures
        ({
            let old = decode::tx_body_model(list);
            let new = decode::tx_body_model(list.push(message_field(2047, content)));
            new == (TxBodyModel {
                non_critical_extension_options: old.non_critical_extension_options.push(
                    decode::any_model(content),
                ),
                ..old
            })
        }),
{
    lemma_push(list, message_field(2047, content));
    let old = decode::tx_body_model(list);
    let new = decode::tx_body_model(list.push(message_field(2047, content)));
    assert(new.non_critical_extension_options =~= old.non_critical_extension_options.push(
        decode::any_model(content),
    ));
}

/// Fields with other tags are nothing to the body of a transaction.
pub proof fn law_tx_body_other(list: Seq<FieldModel>, field: FieldModel)
    requires
        field.tag != 1,
        field.tag != 2,
        field.tag != 3,
        field.tag != 1023,
        field.tag != 2047,
    ensures
        decode::tx_body_model(list.push(field))
            == decode::tx_body_model(list),
{
    lemma_push(list, field);
}

/// A transaction without fields.
pub proof fn law_empty_tx()
    ensures
        decode::tx_model(Seq::empty()) == (TxModel {
            body: None,
            auth_info: None,
            signatures: Seq::empty(),
        }),
{
}

/// What the field with tag 1 is to a transaction.
pub proof fn law_tx_body(
    list: Seq<FieldModel>,
    content: Seq<FieldModel>,
    more: Seq<FieldModel>,
)
    ensures
        ({
            let old = decode::tx_model(list);
            let new = decode::tx_model(list.push(message_field(1, content)));
            match lookup::message(list, 1) {
                Some(earlier) => {
                    &&& old.body is Some
                    &&& new == (TxModel {
                        body: Some(decode::tx_body_model(earlier + content)),
                        ..old
                    })
                },
                None => {
                    &&& old.body is None
                    &&& new == (TxModel {
                        body: Some(decode::tx_body_model(content)),
                        ..old
                    })
                },
            }
        }),
        decode::tx_model(
            list.push(message_field(1, content)).push(message_field(1, more)),
        ) == decode::tx_model(list.push(message_field(1, content + more))),
{
    let first = message_field(1, content);
    let second = message_field(1, more);
    let both = message_field(1, content + more);
    lemma_push(list, first);
    lemma_push(list.push(first), second);
    lemma_push(list, both);
    if let Some(old) = lookup::message(list, 1) {
        assert(old + content + more =~= old + (content + more));
    }
}

/// What the field with tag 2 is to a transaction.
pub proof fn law_tx_auth_info(
    list: Seq<FieldModel>,
    bytes: Seq<u8>,
)
    ensures
        ({
            let old = decode::tx_model(list);
            let new = decode::tx_model(list.push(bytes_field(2, bytes)));
            new == (TxModel {
                auth_info: joined(old.auth_info, bytes),
                ..old
            })
        }),
{
    lemma_push(list, bytes_field(2, bytes));
}

/// What the field with tag 3 is to a transaction.
pub proof fn law_tx_signatures(
    list: Seq<FieldModel>,
    bytes: Seq<u8>,
)
    ensures
        ({
            let old = decode::tx_model(list);
            let new = decode::tx_model(list.push(bytes_field(3, bytes)));
            new == (TxModel {
                signatures: old.signatures.push(bytes),
                ..old
            })
        }),
{
    lemma_push(list, bytes_field(3, bytes));
}

/// Fields with other tags are nothing to a transaction.
pub proof fn law_tx_other(list: Seq<FieldModel>, field: FieldModel)
    requires
        field.tag != 1,
        field.tag != 2,
        field.tag != 3,
    ensures
        decode::tx_model(list.push(field))
            == decode::tx_model(list),
{
    lemma_push(list, field);
}

/// The outcome of a transaction without fields.
pub proof fn law_empty_response_deliver_tx()
    ensures
        decode::response_deliver_tx_model(Seq::empty()) == (ResponseDeliverTxModel {
            code: 0,
            data: Seq::empty(),
            log: Seq::empty(),
            info: Seq::empty(),
            gas_wanted: 0,
            gas_used: 0,
            events: Seq::empty(),
            codespace: Seq::empty(),
        }),
{
    assert(decode::response_deliver_tx_model(Seq::empty()).events =~= Seq::empty());
}

/// What the field with tag 1 is to the outcome of a transaction.
pub proof fn law_response_deliver_tx_code(
    list: Seq<FieldModel>,
    number: u64,
)
    ensures
        ({
            let old = decode::response_deliver_tx_model(list);
            let new = decode::response_deliver_tx_model(list.push(number_field(1, number)));
            new == (ResponseDeliverTxModel {
                code: number as u32,
                ..old
            })
        }),
{
    lemma_push(list, number_field(1, number));
}

/// What the field with tag 2 is to the outcome of a transaction.
pub proof fn law_response_deliver_tx_data(
    list: Seq<FieldModel>,
    bytes: Seq<u8>,
)
    ensures
        ({
            let old = decode::response_deliver_tx_model(list);
            let new = decode::response_deliver_tx_model(list.push(bytes_field(2, bytes)));
            new == (ResponseDeliverTxModel {
                data: bytes,
                ..old
            })
        }),
{
    lemma_push(list, bytes_field(2, bytes));
}

/// What the field with tag 3 is to the outcome of a transaction.
pub proof fn law_response_deliver_tx_log(
    list: Seq<FieldModel>,
    text: Seq<char>,
)
    ensures
        ({
            let old = decode::response_deliver_tx_model(list);
            let new = decode::response_deliver_tx_model(list.push(text_field(3, text)));
            new == (ResponseDeliverTxModel {
                log: text,
                ..old
            })
        }),
{
    lemma_push(list, text_field(3, text));
}

/// What the field with tag 4 is to the outcome of a transaction.
pub proof fn law_response_deliver_tx_info(
    list: Seq<FieldModel>,
    text: Seq<char>,
)
    ensures
        ({
            let old = decode::response_deliver_tx_model(list);
            let new = decode::response_deliver_tx_model(list.push(text_field(4, text)));
            new == (ResponseDeliverTxModel {
                info: text,
                ..old
            })
        }),
{
    lemma_push(list, text_field(4, text));
}

/// What the field with tag 5 is to the outcome of a transaction.
pub proof fn law_response_deliver_tx_gas_wanted(
    list: Seq<FieldModel>,
    number: u64,
)
    ensures
        ({
            let old = decode::response_deliver_tx_model(list);
            let new = decode::response_deliver_tx_model(list.push(number_field(5, number)));
            new == (ResponseDeliverTxModel {
                gas_wanted: number as i64,
                ..old
            })
        }),
{
    lemma_push(list, number_field(5, number));
}

/// What the field with tag 6 is to the outcome of a transaction.
pub proof fn law_response_deliver_tx_gas_used(
    list: Seq<FieldModel>,
    number: u64,
)
    ensures
        ({
            let old = decode::response_deliver_tx_model(list);
            let new = decode::response_deliver_tx_model(list.push(number_field(6, number)));
            new == (ResponseDeliverTxModel {
                gas_used: number as i64,
                ..old
            })
        }),
{
    lemma_push(list, number_field(6, number));
}

/// What the field with tag 7 is to the outcome of a transaction.
pub proof fn law_response_deliver_tx_events(
    list: Seq<FieldModel>,
    content: Seq<FieldModel>,
)
    ensures
        ({
            let old = decode::response_deliver_tx_model(list);
            let new = decode::response_deliver_tx_model(list.push(message_field(7, content)));
            new == (ResponseDeliverTxModel {
                events: old.events.push(decode::event_model(content)),
                ..old
            })
        }),
{
    lemma_push(list, message_field(7, content));
    let old = decode::response_deliver_tx_model(list);
    let new = decode::response_deliver_tx_model(list.push(message_field(7, content)));
    assert(new.events =~= old.events.push(decode::event_model(content)));
}

/// What the field with tag 8 is to the outcome of a transaction.
pub proof fn law_response_deliver_tx_codespace(
    list: Seq<FieldModel>,
    text: Seq<char>,
)
    ensures
        ({
            let old = decode::response_deliver_tx_model(list);
            let new = decode::response_deliver_tx_model(list.push(text_field(8, text)));
            new == (ResponseDeliverTxModel {
                codespace: text,
                ..old
            })
        }),
{
    lemma_push(list, text_field(8, text));
}

/// Fields with other tags are nothing to the outcome of a transaction.
pub proof fn law_response_deliver_tx_other(list: Seq<FieldModel>, field: FieldModel)
    requires
        field.tag != 1,
        field.tag != 2,
        field.tag != 3,
        field.tag != 4,
        field.tag != 5,
        field.tag != 6,
        field.tag != 7,
        field.tag != 8,
    ensures
        decode::response_deliver_tx_model(list.push(field))
            == decode::response_deliver_tx_model(list),
{
    lemma_push(list, field);
}

/// A transaction with its outcome without fields.
pub proof fn law_empty_tx_result()
    ensures
        decode::tx_result_model(Seq::empty()) == (TxResultModel {
            height: 0,
            index: 0,
            tx: None,
            result: None,
            hash: Seq::empty(),
        }),
{
}

/// What the field with tag 1 is to a transaction with its outcome.
pub proof fn law_tx_result_height(
    list: Seq<FieldModel>,
    number: u64,
)
    ensures
        ({
            let old = decode::tx_result_model(list);
            let new = decode::tx_result_model(list.push(number_field(1, number)));
            new == (TxResultModel {
                height: number,
                ..old
            })
        }),
{
    lemma_push(list, number_field(1, number));
}

/// What the field with tag 2 is to a transaction with its outcome.
pub proof fn law_tx_result_index(
    list: Seq<FieldModel>,
    number: u64,
)
    ensures
        ({
            let old = decode::tx_result_model(list);
            let new = decode::tx_result_model(list.push(number_field(2, number)));
            new == (TxResultModel {
                index: number as u32,
                ..old
            })
        }),
{
    lemma_push(list, number_field(2, number));
}

/// What the field with tag 3 is to a transaction with its outcome.
pub proof fn law_tx_result_tx(
    list: Seq<FieldModel>,
    content: Seq<FieldModel>,
    more: Seq<FieldModel>,
)
    ensures
        ({
            let old = decode::tx_result_model(list);
            let new = decode::tx_result_model(list.push(message_field(3, content)));
            match lookup::message(list, 3) {
                Some(earlier) => {
                    &&& old.tx is Some
                    &&& new == (TxResultModel {
                        tx: Some(decode::tx_model(earlier + content)),
                        ..old
                    })
                },
                None => {
                    &&& old.tx is None
                    &&& new == (TxResultModel {
                        tx: Some(decode::tx_model(content)),
                        ..old
                    })
                },
            }
        }),
        decode::tx_result_model(
            list.push(message_field(3, content)).push(message_field(3, more)),
        ) == decode::tx_result_model(list.push(message_field(3, content + more))),
{
    let first = message_field(3, content);
    let second = message_field(3, more);
    let both = message_field(3, content + more);
    lemma_push(list, first);
    lemma_push(list.push(first), second);
    lemma_push(list, both);
    if let Some(old) = lookup::message(list, 3) {
        assert(old + content + more =~= old + (content + more));
    }
}

/// What the field with tag 4 is to a transaction with its outcome.
pub proof fn law_tx_result_result(
    list: Seq<FieldModel>,
    content: Seq<FieldModel>,
    more: Seq<FieldModel>,
)
    ensures
        ({
            let old = decode::tx_result_model(list);
            let new = decode::tx_result_model(list.push(message_field(4, content)));
            match lookup::message(list, 4) {
                Some(earlier) => {
                    &&& old.result is Some
                    &&& new == (TxResultModel {
                        result: Some(decode::response_deliver_tx_model(earlier + content)),
                        ..old
                    })
                },
                None => {
                    &&& old.result is None
                    &&& new == (TxResultModel {
                        result: Some(decode::response_deliver_tx_model(content)),
                        ..old
                    })
                },
            }
        }),
        decode::tx_result_model(
            list.push(message_field(4, content)).push(message_field(4, more)),
        ) == decode::tx_result_model(list.push(message_field(4, content + more))),
{
    let first = message_field(4, content);
    let second = message_field(4, more);
    let both = message_field(4, content + more);
    lemma_push(list, first);
    lemma_push(list.push(first), second);
    lemma_push(list, both);
    if let Some(old) = lookup::message(list, 4) {
        assert(old + content + more =~= old + (content + more));
    }
}

/// What the field with tag 5 is to a transaction with its outcome.
pub proof fn law_tx_result_hash(
    list: Seq<FieldModel>,
    bytes: Seq<u8>,
)
    ensures
        ({
            let old = decode::tx_result_model(list);
            let new = decode::tx_result_model(list.push(bytes_field(5, bytes)));
            new == (TxResultModel {
                hash: bytes,
                ..old
            })
        }),
{
    lemma_push(list, bytes_field(5, bytes));
}

/// Fields with other tags are nothing to a transaction with its outcome.
pub proof fn law_tx_result_other(list: Seq<FieldModel>, field: FieldModel)
    requires
        field.tag != 1,
        field.tag != 2,
        field.tag != 3,
        field.tag != 4,
        field.tag != 5,
    ensures
        decode::tx_result_model(list.push(field))
            == decode::tx_result_model(list),
{
    lemma_push(list, field);
}

/// A block without fields.
pub proof fn law_empty_block()
    ensures
        decode::block_model(Seq::empty()) == (BlockModel {
            header: None,
            evidence: None,
            last_commit: None,
            result_begin_block: None,
            result_end_block: None,
            transactions: Seq::empty(),
            validator_updates: Seq::empty(),
        }),
{
    assert(decode::block_model(Seq::empty()).transactions =~= Seq::empty());
}

/// What the field with tag 1 is to a block.
pub proof fn law_block_header(
    list: Seq<FieldModel>,
    content: Seq<FieldModel>,
    more: Seq<FieldModel>,
)
    ensures
        ({
            let old = decode::block_model(list);
            let new = decode::block_model(list.push(message_field(1, content)));
            match lookup::message(list, 1) {
                Some(earlier) => {
                    &&& old.header is Some
                    &&& new == (BlockModel {
                        header: Some(decode::header_model(earlier + content)),
                        ..old
                    })
                },
                None => {
                    &&& old.header is None
                    &&& new == (BlockModel {
                        header: Some(decode::header_model(content)),
                        ..old
                    })
                },
            }
        }),
        decode::block_model(
            list.push(message_field(1, content)).push(message_field(1, more)),
        ) == decode::block_model(list.push(message_field(1, content + more))),
{
    let first = message_field(1, content);
    let second = message_field(1, more);
    let both = message_field(1, content + more);
    lemma_push(list, first);
    lemma_push(list.push(first), second);
    lemma_push(list, both);
    if let Some(old) = lookup::message(list, 1) {
        assert(old + content + more =~= old + (content + more));
    }
}

/// What the field with tag 2 is to a block.
pub proof fn law_block_evidence(
    list: Seq<FieldModel>,
    bytes: Seq<u8>,
)
    ensures
        ({
            let old = decode::block_model(list);
            let new = decode::block_model(list.push(bytes_field(2, bytes)));
            new == (BlockModel {
                evidence: joined(old.evidence, bytes),
                ..old
            })
        }),
{
    lemma_push(list, bytes_field(2, bytes));
}

/// What the field with tag 3 is to a block.
pub proof fn law_block_last_commit(
    list: Seq<FieldModel>,
    bytes: Seq<u8>,
)
    ensures
        ({
            let old = decode::block_model(list);
            let new = decode::block_model(list.push(bytes_field(3, bytes)));
            new == (BlockModel {
                last_commit: joined(old.last_commit, bytes),
                ..old
            })
        }),
{
    lemma_push(list, bytes_field(3, bytes));
}

/// What the field with tag 4 is to a block.
pub proof fn law_block_result_begin_block(
    list: Seq<FieldModel>,
    content: Seq<FieldModel>,
    more: Seq<FieldModel>,
)
    ensures
        ({
            let old = decode::block_model(list);
            let new = decode::block_model(list.push(message_field(4, content)));
            match lookup::message(list, 4) {
                Some(earlier) => {
                    &&& old.result_begin_block is Some
                    &&& new == (BlockModel {
                        result_begin_block: Some(
                            decode::response_begin_block_model(earlier + content),
                        ),
                        ..old
                    })
                },
                None => {
                    &&& old.result_begin_block is None
                    &&& new == (BlockModel {
                        result_begin_block: Some(decode::response_begin_block_model(content)),
                        ..old
                    })
                },
            }
        }),
        decode::block_model(
            list.push(message_field(4, content)).push(message_field(4, more)),
        ) == decode::block_model(list.push(message_field(4, content + more))),
{
    let first = message_field(4, content);
    let second = message_field(4, more);
    let both = message_field(4, content + more);
    lemma_push(list, first);
    lemma_push(list.push(first), second);
    lemma_push(list, both);
    if let Some(old) = lookup::message(list, 4) {
        assert(old + content + more =~= old + (content + more));
    }
}

/// What the field with tag 5 is to a block.
pub proof fn law_block_result_end_block(
    list: Seq<FieldModel>,
    content: Seq<FieldModel>,
    more: Seq<FieldModel>,
)
    ensures
        ({
            let old = decode::block_model(list);
            let new = decode::block_model(list.push(message_field(5, content)));
            match lookup::message(list, 5) {
                Some(earlier) => {
                    &&& old.result_end_block is Some
                    &&& new == (BlockModel {
                        result_end_block: Some(decode::response_end_block_model(earlier + content)),
                        ..old
                    })
                },
                None => {
                    &&& old.result_end_block is None
                    &&& new == (BlockModel {
                        result_end_block: Some(decode::response_end_block_model(content)),
                        ..old
                    })
                },
            }
        }),
        decode::block_model(
            list.push(message_field(5, content)).push(message_field(5, more)),
        ) == decode::block_model(list.push(message_field(5, content + more))),
{
    let first = message_field(5, content);
    let second = message_field(5, more);
    let both = message_field(5, content + more);
    lemma_push(list, first);
    lemma_push(list.push(first), second);
    lemma_push(list, both);
    if let Some(old) = lookup::message(list, 5) {
        assert(old + content + more =~= old + (content + more));
    }
}

/// What the field with tag 7 is to a block.
pub proof fn law_block_transactions(
    list: Seq<FieldModel>,
    content: Seq<FieldModel>,
)
    ensures
        ({
            let old = decode::block_model(list);
            let new = decode::block_model(list.push(message_field(7, content)));
            new == (BlockModel {
                transactions: old.transactions.push(decode::tx_result_model(content)),
                ..old
            })
        }),
{
    lemma_push(list, message_field(7, content));
    let old = decode::block_model(list);
    let new = decode::block_model(list.push(message_field(7, content)));
    assert(new.transactions =~= old.transactions.push(decode::tx_result_model(content)));
}

/// What the field with tag 8 is to a block.
pub proof fn law_block_validator_updates(
    list: Seq<FieldModel>,
    bytes: Seq<u8>,
)
    ensures
        ({
            let old = decode::block_model(list);
            let new = decode::block_model(list.push(bytes_field(8, bytes)));
            new == (BlockModel {
                validator_updates: old.validator_updates.push(bytes),
                ..old
            })
        }),
{
    lemma_push(list, bytes_field(8, bytes));
}

/// Fields with other tags are nothing to a block.
pub proof fn law_block_other(list: Seq<FieldModel>, field: FieldModel)
    requires
        field.tag != 1,
        field.tag != 2,
        field.tag != 3,
        field.tag != 4,
        field.tag != 5,
        field.tag != 7,
        field.tag != 8,
    ensures
        decode::block_model(list.push(field))
            == decode::block_model(list),
{
    lemma_push(list, field);
}

} // verus!
