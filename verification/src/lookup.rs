//! Looking up the fields of a message by their tags.
//!
//! A field that can occur once may still be encoded several times. Of numbers, texts and bytes
//! the last one counts. Messages are merged: the fields of a later one follow those of an
//! earlier one.

use crate::fields;
use crate::fields::{Field, FieldModel, Value, ValueModel};
use vstd::prelude::*;

verus! {

/// The models of a list of borrowed fields.
pub open spec fn models(fields: Seq<&Field>) -> Seq<FieldModel> {
    fields.map_values(|field: &Field| field.model())
}

/// Picks the number out of a field with the given tag.
pub open spec fn as_number(tag: u32) -> spec_fn(FieldModel) -> Option<u64> {
    |field: FieldModel|
        match field.value {
            ValueModel::Number(number) if field.tag == tag => Some(number),
            _ => None,
        }
}

/// Picks the text out of a field with the given tag.
pub open spec fn as_text(tag: u32) -> spec_fn(FieldModel) -> Option<Seq<char>> {
    |field: FieldModel|
        match field.value {
            ValueModel::Text(text) if field.tag == tag => Some(text),
            _ => None,
        }
}

/// Picks the bytes out of a field with the given tag.
pub open spec fn as_bytes(tag: u32) -> spec_fn(FieldModel) -> Option<Seq<u8>> {
    |field: FieldModel|
        match field.value {
            ValueModel::Bytes(bytes) if field.tag == tag => Some(bytes),
            _ => None,
        }
}

/// Picks the message out of a field with the given tag.
pub open spec fn as_message(tag: u32) -> spec_fn(FieldModel) -> Option<Seq<FieldModel>> {
    |field: FieldModel|
        match field.value {
            ValueModel::Message(content) if field.tag == tag => Some(content),
            _ => None,
        }
}

/// The last element, or a default if there is none.
pub open spec fn last_or<T>(values: Seq<T>, default: T) -> T {
    if values.len() == 0 {
        default
    } else {
        values.last()
    }
}

/// The number with a given tag, zero by default.
pub open spec fn number(fields: Seq<FieldModel>, tag: u32) -> u64 {
    last_or(fields.filter_map(as_number(tag)), 0)
}

/// The text with a given tag, empty by default.
pub open spec fn text(fields: Seq<FieldModel>, tag: u32) -> Seq<char> {
    last_or(fields.filter_map(as_text(tag)), Seq::empty())
}

/// The bytes with a given tag, empty by default.
pub open spec fn bytes(fields: Seq<FieldModel>, tag: u32) -> Seq<u8> {
    last_or(fields.filter_map(as_bytes(tag)), Seq::empty())
}

/// All bytes with a given tag, in order.
pub open spec fn all_bytes(fields: Seq<FieldModel>, tag: u32) -> Seq<Seq<u8>> {
    fields.filter_map(as_bytes(tag))
}

/// The message with a given tag that stays encoded. Encoded messages are merged by joining them.
pub open spec fn encoded(fields: Seq<FieldModel>, tag: u32) -> Option<Seq<u8>> {
    if all_bytes(fields, tag).len() == 0 {
        None
    } else {
        Some(all_bytes(fields, tag).flatten())
    }
}

/// All messages with a given tag, in order.
pub open spec fn all_messages(fields: Seq<FieldModel>, tag: u32) -> Seq<Seq<FieldModel>> {
    fields.filter_map(as_message(tag))
}

/// The message with a given tag.
pub open spec fn message(fields: Seq<FieldModel>, tag: u32) -> Option<Seq<FieldModel>> {
    if all_messages(fields, tag).len() == 0 {
        None
    } else {
        Some(all_messages(fields, tag).flatten())
    }
}

/// Borrows every field of a list.
pub fn borrow_fields<'a>(fields: &'a Vec<Field>) -> (res: Vec<&'a Field>)
    ensures
        models(res@) == fields::models(fields@),
{
    let mut res: Vec<&'a Field> = Vec::new();
    let mut i: usize = 0;
    while i < fields.len()
        invariant
            i <= fields.len(),
            res@.len() == i,
            forall|k: int| 0 <= k < i ==> *res@[k] == #[trigger] fields@[k],
        decreases fields.len() - i,
    {
        res.push(&fields[i]);
        i = i + 1;
    }
    assert(models(res@) =~= fields::models(fields@));
    res
}

/// Finds the number with a given tag.
pub fn find_number(fields: &Vec<&Field>, tag: u32) -> (res: u64)
    ensures
        res == number(models(fields@), tag),
{
    let mut res: u64 = 0;
    let mut i: usize = 0;
    while i < fields.len()
        invariant
            i <= fields.len(),
            res == number(models(fields@).take(i as int), tag),
        decreases fields.len() - i,
    {
        proof {
            models(fields@).lemma_filter_map_take_succ(as_number(tag), i as int);
        }
        if fields[i].tag == tag {
            if let Value::Number(number) = &fields[i].value {
                res = *number;
            }
        }
        i = i + 1;
    }
    assert(models(fields@).take(i as int) =~= models(fields@));
    res
}

/// Finds the text with a given tag.
pub fn find_text(fields: &Vec<&Field>, tag: u32) -> (res: String)
    ensures
        res@ == text(models(fields@), tag),
{
    let mut res: String = String::new();
    let mut i: usize = 0;
    while i < fields.len()
        invariant
            i <= fields.len(),
            res@ == text(models(fields@).take(i as int), tag),
        decreases fields.len() - i,
    {
        proof {
            models(fields@).lemma_filter_map_take_succ(as_text(tag), i as int);
        }
        if fields[i].tag == tag {
            if let Value::Text(text) = &fields[i].value {
                res = text.clone();
            }
        }
        i = i + 1;
    }
    assert(models(fields@).take(i as int) =~= models(fields@));
    res
}

/// Finds all bytes with a given tag.
pub fn find_all_bytes(fields: &Vec<&Field>, tag: u32) -> (res: Vec<Vec<u8>>)
    ensures
        res.deep_view() == all_bytes(models(fields@), tag),
{
    let mut res: Vec<Vec<u8>> = Vec::new();
    let mut i: usize = 0;
    assert(res.deep_view() =~= all_bytes(models(fields@).take(0), tag));
    while i < fields.len()
        invariant
            i <= fields.len(),
            res.deep_view() == all_bytes(models(fields@).take(i as int), tag),
        decreases fields.len() - i,
    {
        proof {
            models(fields@).lemma_filter_map_take_succ(as_bytes(tag), i as int);
        }
        let ghost before = res.deep_view();
        if fields[i].tag == tag {
            if let Value::Bytes(bytes) = &fields[i].value {
                let copy = bytes.clone();
                assert(copy.deep_view() =~= bytes@);
                res.push(copy);
                assert(res.deep_view() =~= before.push(bytes@));
            }
        }
        i = i + 1;
    }
    assert(models(fields@).take(i as int) =~= models(fields@));
    res
}

/// Finds the bytes with a given tag.
pub fn find_bytes(fields: &Vec<&Field>, tag: u32) -> (res: Vec<u8>)
    ensures
        res.deep_view() == bytes(models(fields@), tag),
{
    let mut all = find_all_bytes(fields, tag);
    let ghost found = all.deep_view();
    match all.pop() {
        Some(last) => {
            assert(found.last() == last.deep_view());
            last
        },
        None => {
            let none: Vec<u8> = Vec::new();
            assert(none.deep_view() =~= Seq::empty());
            none
        },
    }
}

/// Finds the message with a given tag that stays encoded.
pub fn find_encoded(fields: &Vec<&Field>, tag: u32) -> (res: Option<Vec<u8>>)
    ensures
        res.deep_view() == encoded(models(fields@), tag),
{
    let all = find_all_bytes(fields, tag);
    if all.len() == 0 {
        return None;
    }
    let ghost parts = all.deep_view();
    let mut joined: Vec<u8> = Vec::new();
    let mut i: usize = 0;
    assert(joined@ =~= parts.take(0).flatten());
    while i < all.len()
        invariant
            i <= all.len(),
            parts == all.deep_view(),
            joined@ == parts.take(i as int).flatten(),
        decreases all.len() - i,
    {
        let mut part = all[i].clone();
        let ghost before = joined@;
        assert(part@ =~= parts[i as int]);
        joined.append(&mut part);
        proof {
            parts.take(i as int).lemma_flatten_push(parts[i as int]);
            assert(parts.take(i + 1) =~= parts.take(i as int).push(parts[i as int]));
        }
        i = i + 1;
    }
    assert(parts.take(i as int) =~= parts);
    assert(joined.deep_view() =~= joined@);
    Some(joined)
}

/// The models of a list of messages.
pub open spec fn message_models(messages: Seq<Vec<&Field>>) -> Seq<Seq<FieldModel>> {
    messages.map_values(|content: Vec<&Field>| models(content@))
}

/// Finds all messages with a given tag.
pub fn find_all_messages<'a>(fields: &Vec<&'a Field>, tag: u32) -> (res: Vec<Vec<&'a Field>>)
    ensures
        message_models(res@) == all_messages(models(fields@), tag),
{
    let mut res: Vec<Vec<&'a Field>> = Vec::new();
    let mut i: usize = 0;
    assert(message_models(res@) =~= all_messages(models(fields@).take(0), tag));
    while i < fields.len()
        invariant
            i <= fields.len(),
            message_models(res@) == all_messages(models(fields@).take(i as int), tag),
        decreases fields.len() - i,
    {
        proof {
            models(fields@).lemma_filter_map_take_succ(as_message(tag), i as int);
        }
        let ghost before = res@;
        let field: &'a Field = fields[i];
        if field.tag == tag {
            if let Value::Message(content) = &field.value {
                let borrowed = borrow_fields(content);
                assert(field.model().value->Message_0 =~= fields::models(content@));
                res.push(borrowed);
                assert(message_models(res@) =~= message_models(before).push(models(borrowed@)));
            }
        }
        i = i + 1;
    }
    assert(models(fields@).take(i as int) =~= models(fields@));
    res
}

/// Finds the message with a given tag.
pub fn find_message<'a>(fields: &Vec<&'a Field>, tag: u32) -> (res: Option<Vec<&'a Field>>)
    ensures
        match res {
            Some(content) => message(models(fields@), tag) == Some(models(content@)),
            None => message(models(fields@), tag) is None,
        },
{
    let mut all = find_all_messages(fields, tag);
    let ghost parts = message_models(all@);
    if all.len() == 0 {
        return None;
    }
    let mut merged: Vec<&'a Field> = Vec::new();
    let mut i: usize = 0;
    assert(models(merged@) =~= parts.take(0).flatten());
    while i < all.len()
        invariant
            i <= all.len(),
            parts == message_models(all@),
            models(merged@) == parts.take(i as int).flatten(),
        decreases all.len() - i,
    {
        let mut j: usize = 0;
        let ghost before = merged@;
        let content = &all[i];
        while j < content.len()
            invariant
                j <= content.len(),
                merged@ == before + content@.take(j as int),
            decreases content.len() - j,
        {
            merged.push(content[j]);
            assert(content@.take(j + 1) =~= content@.take(j as int).push(content@[j as int]));
            j = j + 1;
        }
        proof {
            assert(content@.take(j as int) =~= content@);
            assert(models(merged@) =~= models(before) + models(content@));
            parts.take(i as int).lemma_flatten_push(parts[i as int]);
            assert(parts.take(i + 1) =~= parts.take(i as int).push(parts[i as int]));
        }
        i = i + 1;
    }
    assert(parts.take(i as int) =~= parts);
    Some(merged)
}

} // verus!
