//! Encoded messages as lists of fields.

use crate::schema::{find_field_name, find_field_type, find_message_name, FieldType, Kind};
use crate::wire::FailedCall;
use crate::{schema, wire};
use prost::DecodeError;
use vstd::prelude::*;
use vstd::utf8::*;

verus! {

/// The value of a field.
#[derive(Debug)]
pub enum Value {
    Number(u64),
    Text(String),
    Bytes(Vec<u8>),
    Message(Vec<Field>),
}

/// A field of a message.
#[derive(Debug)]
pub struct Field {
    pub tag: u32,
    pub value: Value,
}

/// Model of [`Value`].
pub enum ValueModel {
    Number(u64),
    Text(Seq<char>),
    Bytes(Seq<u8>),
    Message(Seq<FieldModel>),
}

/// Model of [`Field`].
pub struct FieldModel {
    pub tag: u32,
    pub value: ValueModel,
}

impl Field {
    /// The model of the field.
    pub open spec fn model(self) -> FieldModel
        decreases self,
    {
        FieldModel {
            tag: self.tag,
            value: match self.value {
                Value::Number(number) => ValueModel::Number(number),
                Value::Text(text) => ValueModel::Text(text@),
                Value::Bytes(bytes) => ValueModel::Bytes(bytes@),
                Value::Message(fields) => ValueModel::Message(
                    Seq::new(
                        fields@.len(),
                        |i: int|
                            if 0 <= i < fields@.len() {
                                fields@[i].model()
                            } else {
                                arbitrary()
                            },
                    ),
                ),
            },
        }
    }
}

/// The models of a list of fields.
pub open spec fn models(fields: Seq<Field>) -> Seq<FieldModel> {
    fields.map_values(|field: Field| field.model())
}

/// A field of a kind of messages, by its tag.
#[derive(Debug, Clone, Copy, PartialEq, Eq, Structural)]
pub struct Location {
    pub kind: Kind,
    pub tag: u32,
}

/// Why bytes are not a message: what is wrong, and in which fields, from the innermost to the
/// outermost.
#[derive(Debug)]
pub struct Failure {
    pub cause: DecodeError,
    pub path: Vec<Location>,
}

/// Model of [`Failure`]: which call fails, and in which fields.
pub struct FailureModel {
    pub call: FailedCall,
    pub path: Seq<Location>,
}

impl FailureModel {
    /// The failure of a call in a field.
    pub open spec fn at(call: FailedCall, here: Location) -> FailureModel {
        FailureModel { call, path: seq![here] }
    }

    /// The failure of a call that is not in any field.
    pub open spec fn outside(call: FailedCall) -> FailureModel {
        FailureModel { call, path: Seq::empty() }
    }

    /// The same failure inside one more field.
    pub open spec fn inside(self, here: Location) -> FailureModel {
        FailureModel { call: self.call, path: self.path.push(here) }
    }
}

impl Failure {
    /// The failure is the one that the model describes: the failing call gives its cause.
    pub open spec fn agrees_with(self, model: FailureModel) -> bool {
        model.call.gives(self.cause) && self.path@ == model.path
    }
}

/// A list with one more element in front, if there is a list.
pub open spec fn prepend(head: FieldModel, tail: Result<Seq<FieldModel>, FailureModel>) -> Result<
    Seq<FieldModel>,
    FailureModel,
> {
    match tail {
        Ok(tail) => Ok(seq![head] + tail),
        Err(failure) => Err(failure),
    }
}

/// The value of a field that is not a message, and the input behind it.
pub open spec fn plain_value(field_type: FieldType, wire_type: u64, input: Seq<u8>) -> Option<
    (ValueModel, Seq<u8>),
> {
    match field_type {
        FieldType::Number => if wire_type == wire::VARINT {
            match wire::varint(input) {
                Some((number, rest)) => Some((ValueModel::Number(number), rest)),
                None => None,
            }
        } else {
            None
        },
        FieldType::Text => if wire_type == wire::LENGTH_DELIMITED {
            match wire::delimited(input) {
                Some((bytes, rest)) => if valid_utf8(bytes) {
                    Some((ValueModel::Text(decode_utf8(bytes)), rest))
                } else {
                    None
                },
                None => None,
            }
        } else {
            None
        },
        FieldType::Bytes => if wire_type == wire::LENGTH_DELIMITED {
            match wire::delimited(input) {
                Some((bytes, rest)) => Some((ValueModel::Bytes(bytes), rest)),
                None => None,
            }
        } else {
            None
        },
        _ => None,
    }
}

/// Behind a value there is no more input.
pub proof fn lemma_plain_value_shrinks(field_type: FieldType, wire_type: u64, input: Seq<u8>)
    ensures
        plain_value(field_type, wire_type, input) matches Some((_, rest)) ==> rest.len()
            <= input.len(),
{
    wire::lemma_varint_shrinks(input);
}

/// The kind of messages that the values of a field are.
pub open spec fn nested_kind(field_type: FieldType) -> Option<Kind> {
    match field_type {
        FieldType::Message(kind) => Some(kind),
        FieldType::Encoded(kind) => Some(kind),
        _ => None,
    }
}

/// What is kept of a message that is the value of a field: its fields, or its bytes if it stays
/// encoded.
pub open spec fn nested_value(
    field_type: FieldType,
    bytes: Seq<u8>,
    content: Seq<FieldModel>,
) -> ValueModel {
    match field_type {
        FieldType::Encoded(_) => ValueModel::Bytes(bytes),
        _ => ValueModel::Message(content),
    }
}

/// The call that fails on the value of a field that is not a message.
pub open spec fn plain_failure(
    field_type: FieldType,
    wire_type: u64,
    input: Seq<u8>,
) -> FailedCall {
    match field_type {
        FieldType::Number => FailedCall::Number { wire_type, input },
        FieldType::Text => FailedCall::Text { wire_type, input },
        _ => FailedCall::Bytes { wire_type, input },
    }
}

/// The fields that the bytes of a message of the given kind hold. The message ends where `stop`
/// bytes of the input are left. Messages and groups may be nested in it to the given depth. If
/// the bytes are not such a message, the result says which call fails and in which fields, from
/// the innermost to the outermost; the path is empty if it fails between two fields of the message
/// itself, or in a field that the kind does not have. Such fields are left out otherwise.
pub open spec fn fields(kind: Kind, input: Seq<u8>, stop: nat, depth: nat) -> Result<
    Seq<FieldModel>,
    FailureModel,
>
    decreases input.len(),
{
    if input.len() == stop {
        Ok(Seq::empty())
    } else if input.len() < stop {
        Err(
            FailureModel::outside(
                FailedCall::New { description: "delimited length exceeded" },
            ),
        )
    } else {
        match wire::key(input) {
            Some((tag, wire_type, rest)) => {
                let field_type = schema::field_type(kind, tag);
                let here = Location { kind, tag };
                proof {
                    wire::lemma_varint_shrinks(input);
                    wire::lemma_varint_shrinks(rest);
                    wire::lemma_skipped_shrinks(wire_type, tag, rest, depth);
                    lemma_plain_value_shrinks(field_type, wire_type, rest);
                }
                match nested_kind(field_type) {
                    Some(inner) => if wire_type != wire::LENGTH_DELIMITED {
                        Err(FailureModel::at(FailedCall::Bytes { wire_type, input: rest }, here))
                    } else if depth == 0 {
                        Err(
                            FailureModel::at(
                                FailedCall::New { description: "recursion limit reached" },
                                here,
                            ),
                        )
                    } else {
                        match wire::delimited(rest) {
                            Some((bytes, behind)) => match fields(
                                inner,
                                bytes + behind,
                                behind.len(),
                                (depth - 1) as nat,
                            ) {
                                Ok(content) => prepend(
                                    FieldModel {
                                        tag,
                                        value: nested_value(field_type, bytes, content),
                                    },
                                    fields(kind, behind, stop, depth),
                                ),
                                Err(failure) => Err(failure.inside(here)),
                            },
                            None => Err(
                                FailureModel::at(
                                    FailedCall::Bytes { wire_type, input: rest },
                                    here,
                                ),
                            ),
                        }
                    },
                    None => if field_type == FieldType::Unknown {
                        match wire::skipped(wire_type, tag, rest, depth) {
                            Some(behind) => fields(kind, behind, stop, depth),
                            None => Err(
                                FailureModel::outside(
                                    wire::skip_failure(wire_type, tag, rest, depth),
                                ),
                            ),
                        }
                    } else {
                        match plain_value(field_type, wire_type, rest) {
                            Some((value, behind)) => prepend(
                                FieldModel { tag, value },
                                fields(kind, behind, stop, depth),
                            ),
                            None => Err(
                                FailureModel::at(
                                    plain_failure(field_type, wire_type, rest),
                                    here,
                                ),
                            ),
                        }
                    },
                }
            },
            None => Err(FailureModel::outside(FailedCall::Key { input })),
        }
    }
}

/// What is still to be read continues what has been read.
spec fn continues(
    whole: Result<Seq<FieldModel>, FailureModel>,
    read: Seq<FieldModel>,
    left: Result<Seq<FieldModel>, FailureModel>,
) -> bool {
    whole == match left {
        Ok(left) => Ok::<Seq<FieldModel>, FailureModel>(read + left),
        Err(failure) => Err(failure),
    }
}

proof fn lemma_continues_push(
    whole: Result<Seq<FieldModel>, FailureModel>,
    read: Seq<FieldModel>,
    head: FieldModel,
    left: Result<Seq<FieldModel>, FailureModel>,
)
    requires
        continues(whole, read, prepend(head, left)),
    ensures
        continues(whole, read.push(head), left),
{
    if left is Ok {
        assert(read + (seq![head] + left->Ok_0) =~= read.push(head) + left->Ok_0);
    }
}

proof fn lemma_models_push(read: Seq<Field>, field: Field)
    ensures
        models(read.push(field)) == models(read).push(field.model()),
{
    assert(models(read.push(field)) =~= models(read).push(field.model()));
}

/// Finds the kind of messages that the values of a field are.
fn find_nested_kind(field_type: FieldType) -> (res: Option<Kind>)
    ensures
        res == nested_kind(field_type),
{
    match field_type {
        FieldType::Message(kind) => Some(kind),
        FieldType::Encoded(kind) => Some(kind),
        _ => None,
    }
}

/// A failure that is not in any field.
fn failure(cause: DecodeError) -> (res: Failure)
    ensures
        res.cause == cause,
        res.path@ == Seq::<Location>::empty(),
{
    Failure { cause, path: Vec::new() }
}

/// A failure in a field.
fn failure_at(cause: DecodeError, here: Location) -> (res: Failure)
    ensures
        res.cause == cause,
        res.path@ == seq![here],
{
    let mut path: Vec<Location> = Vec::new();
    path.push(here);
    Failure { cause, path }
}

/// Reads the fields of an encoded message of the given kind.
pub fn read_fields(kind: Kind, input: &[u8], stop: usize, depth: u32) -> (res: Result<
    Vec<Field>,
    Failure,
>)
    ensures
        match res {
            Ok(read) => fields(kind, input@, stop as nat, depth as nat) == Ok::<
                Seq<FieldModel>,
                FailureModel,
            >(models(read@)),
            Err(failure) => match fields(kind, input@, stop as nat, depth as nat) {
                Ok(_) => false,
                Err(model) => failure.agrees_with(model),
            },
        },
    decreases input@.len(),
{
    let mut read: Vec<Field> = Vec::new();
    let mut left: &[u8] = input;
    let ghost whole = fields(kind, input@, stop as nat, depth as nat);
    assert(models(read@) =~= Seq::empty());
    proof {
        if whole is Ok {
            assert(whole->Ok_0 =~= models(read@) + whole->Ok_0);
        }
    }
    while left.len() > stop
        invariant
            left@.len() <= input@.len(),
            whole == fields(kind, input@, stop as nat, depth as nat),
            continues(whole, models(read@), fields(kind, left@, stop as nat, depth as nat)),
        decreases left@.len(),
    {
        let (tag, wire_type, rest) = match wire::read_key(left) {
            Ok(found) => found,
            Err(err) => {
                proof {
                    wire::lemma_key_error(left, err);
                }
                return Err(failure(err));
            },
        };
        let field_type = find_field_type(kind, tag);
        let here = Location { kind, tag };
        proof {
            wire::lemma_varint_shrinks(left@);
            wire::lemma_varint_shrinks(rest@);
            wire::lemma_skipped_shrinks(wire_type, tag, rest@, depth as nat);
            lemma_plain_value_shrinks(field_type, wire_type, rest@);
        }
        let (value, behind) = match find_nested_kind(field_type) {
            Some(inner) => {
                if wire_type == wire::LENGTH_DELIMITED && depth == 0 {
                    let err = wire::new_error("recursion limit reached");
                    proof {
                        wire::lemma_new_error("recursion limit reached", err);
                    }
                    return Err(failure_at(err, here));
                }
                let (bytes, behind) = match wire::read_bytes(wire_type, rest) {
                    Ok(found) => found,
                    Err(err) => {
                        proof {
                            wire::lemma_bytes_error(wire_type, rest, err);
                        }
                        return Err(failure_at(err, here));
                    },
                };
                let (_, nested) = match wire::read_number(wire::VARINT, rest) {
                    Ok(found) => found,
                    Err(err) => return Err(failure_at(err, here)),
                };
                assert(nested@ =~= bytes@ + behind@);
                let content = match read_fields(inner, nested, behind.len(), depth - 1) {
                    Ok(content) => content,
                    Err(mut failure) => {
                        failure.path.push(here);
                        return Err(failure);
                    },
                };
                if let FieldType::Encoded(_) = field_type {
                    (Value::Bytes(bytes), behind)
                } else {
                    (Value::Message(content), behind)
                }
            },
            None => match field_type {
                FieldType::Number => match wire::read_number(wire_type, rest) {
                    Ok((number, behind)) => (Value::Number(number), behind),
                    Err(err) => {
                        proof {
                            wire::lemma_number_error(wire_type, rest, err);
                        }
                        return Err(failure_at(err, here));
                    },
                },
                FieldType::Text => match wire::read_text(wire_type, rest) {
                    Ok((text, behind)) => (Value::Text(text), behind),
                    Err(err) => {
                        proof {
                            wire::lemma_text_error(wire_type, rest, err);
                        }
                        return Err(failure_at(err, here));
                    },
                },
                FieldType::Bytes => match wire::read_bytes(wire_type, rest) {
                    Ok((bytes, behind)) => (Value::Bytes(bytes), behind),
                    Err(err) => {
                        proof {
                            wire::lemma_bytes_error(wire_type, rest, err);
                        }
                        return Err(failure_at(err, here));
                    },
                },
                _ => match wire::skip_value(wire_type, tag, rest, depth) {
                    Ok(behind) => {
                        left = behind;
                        continue ;
                    },
                    Err(err) => return Err(failure(err)),
                },
            },
        };
        let field = Field { tag, value };
        proof {
            if field.value is Message {
                assert(field.model().value->Message_0 =~= models(field.value->Message_0@));
            }
            lemma_continues_push(
                whole,
                models(read@),
                field.model(),
                fields(kind, behind@, stop as nat, depth as nat),
            );
            lemma_models_push(read@, field);
        }
        read.push(field);
        left = behind;
    }
    if left.len() != stop {
        let err = wire::new_error("delimited length exceeded");
        proof {
            wire::lemma_new_error("delimited length exceeded", err);
        }
        return Err(failure(err));
    }
    assert(models(read@) + Seq::<FieldModel>::empty() =~= models(read@));
    Ok(read)
}

/// The error `err` comes of the error `cause` by noting on it the fields of a path, one after
/// the other, each by the name of its message and its own name.
pub closed spec fn located(cause: DecodeError, path: Seq<Location>, err: DecodeError) -> bool
    decreases path.len(),
{
    if path.len() == 0 {
        err == cause
    } else {
        exists|inner: DecodeError|
            {
                &&& located(cause, path.drop_last(), inner)
                &&& #[trigger] call_ensures(
                    wire::at_field,
                    (
                        inner,
                        schema::message_name(path.last().kind),
                        schema::field_name(path.last().kind, path.last().tag),
                    ),
                    err,
                )
            }
    }
}

/// The error tells of a failure: it comes of the error that the failing call gives by noting on it
/// the fields of the path.
pub open spec fn tells(model: FailureModel, err: DecodeError) -> bool {
    exists|cause: DecodeError|
        model.call.gives(cause) && #[trigger] located(cause, model.path, err)
}

/// An error tells of a field by noting the name of the message and the name of the field on an
/// error that tells of the fields inside it. An error that tells of no field is its own cause.
pub(crate) proof fn law_errors_tell_the_path(
    cause: DecodeError,
    path: Seq<Location>,
    here: Location,
    err: DecodeError,
)
    ensures
        located(cause, Seq::empty(), err) <==> err == cause,
        located(cause, path.push(here), err) <==> exists|inner: DecodeError|
            {
                &&& located(cause, path, inner)
                &&& #[trigger] call_ensures(
                    wire::at_field,
                    (
                        inner,
                        schema::message_name(here.kind),
                        schema::field_name(here.kind, here.tag),
                    ),
                    err,
                )
            },
{
    assert(path.push(here).drop_last() =~= path);
}

impl Failure {
    /// The failure as an error that tells where it is.
    pub fn into_error(self) -> (res: DecodeError)
        ensures
            located(self.cause, self.path@, res),
            forall|model: FailureModel| #[trigger] self.agrees_with(model) ==> tells(model, res),
    {
        let Failure { cause, path } = self;
        let ghost first = cause;
        let mut err = cause;
        let mut i: usize = 0;
        while i < path.len()
            invariant
                i <= path.len(),
                located(first, path@.take(i as int), err),
            decreases path.len() - i,
        {
            let here = path[i];
            let ghost inner = err;
            err = wire::at_field(
                err,
                find_message_name(here.kind),
                find_field_name(here.kind, here.tag),
            );
            proof {
                assert(path@.take(i + 1).drop_last() =~= path@.take(i as int));
                assert(call_ensures(
                    wire::at_field,
                    (
                        inner,
                        schema::message_name(here.kind),
                        schema::field_name(here.kind, here.tag),
                    ),
                    err,
                ));
            }
            i = i + 1;
        }
        assert(path@.take(i as int) =~= path@);
        err
    }
}

} // verus!
