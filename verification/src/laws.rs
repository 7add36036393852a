//! What holds of the triggers of every block, of the events of every response, and of decoding.

use crate::adapter::FilterModel;
use crate::codec::{
    AnyModel, Block, BlockModel, EventModel, HeaderOnlyBlockModel, TransactionContextModel,
    TxResultModel,
};
use crate::error::{Error, ErrorModel};
use crate::firehose::{
    BlockStreamEvent, Fault, FirehoseError, FirehoseMapper, ForkStep, Response, ResponseModel,
    StreamEventModel,
};
use crate::trigger::{EventOrigin, TriggerModel};
use crate::{decode, encode, firehose, parts, round_trip, sequences, triggers};
use vstd::prelude::*;

verus! {

/// A trigger for an event of a type that the filter wants.
pub open spec fn wanted(filter: FilterModel, found: TriggerModel) -> bool {
    match found {
        TriggerModel::Event { event_data, .. } => event_data.event is Some
            && filter.event_types.contains(event_data.event->0.event_type),
        _ => false,
    }
}

/// The event of an event trigger.
pub open spec fn event_of(found: TriggerModel) -> EventModel {
    found->event_data.event->0
}

/// All events of a block: those of its beginning, of its transactions, of its end.
pub open spec fn block_events(block: BlockModel) -> Seq<EventModel> {
    (if block.result_begin_block is Some {
        block.result_begin_block->0.events
    } else {
        Seq::empty()
    }) + block.transactions.flat_map(|tx: TxResultModel| tx.result->0.events) + (
    if block.result_end_block is Some {
        block.result_end_block->0.events
    } else {
        Seq::empty()
    })
}

/// The header that a trigger carries. The trigger for a whole block has it in the block.
pub open spec fn header_of(found: TriggerModel) -> HeaderOnlyBlockModel {
    match found {
        TriggerModel::Block(block) => HeaderOnlyBlockModel { header: block.header },
        TriggerModel::Event { event_data, .. } => event_data.block->0,
        TriggerModel::Transaction(data) => data.block->0,
        TriggerModel::Message(data) => data.block->0,
    }
}

/// The place of a trigger among the triggers of its block.
pub open spec fn rank(found: TriggerModel) -> int {
    match found {
        TriggerModel::Event { origin, .. } => match origin {
            EventOrigin::BeginBlock => 0,
            EventOrigin::DeliverTx => 1,
            EventOrigin::EndBlock => 2,
        },
        TriggerModel::Transaction(_) => 3,
        TriggerModel::Message(_) => 3,
        TriggerModel::Block(_) => 4,
    }
}

/// All triggers are for wanted events of one origin, carry the given header, and name a
/// transaction if and only if the events come from one.
pub open spec fn are_events(
    all: Seq<TriggerModel>,
    filter: FilterModel,
    block: HeaderOnlyBlockModel,
    origin: EventOrigin,
) -> bool {
    forall|k: int|
        0 <= k < all.len() ==> {
            &&& wanted(filter, #[trigger] all[k])
            &&& all[k] is Event
            &&& all[k]->origin == origin
            &&& all[k]->event_data.block == Some(block)
            &&& all[k]->event_data.tx is Some <==> origin == EventOrigin::DeliverTx
        }
}

/// All triggers are for transactions or messages and carry the given header.
pub open spec fn are_from_txs(all: Seq<TriggerModel>, block: HeaderOnlyBlockModel) -> bool {
    forall|k: int|
        0 <= k < all.len() ==> {
            &&& (#[trigger] all[k]) is Transaction || all[k] is Message
            &&& header_of(all[k]) == block
        }
}

proof fn lemma_event_triggers(
    filter: FilterModel,
    events: Seq<EventModel>,
    block: HeaderOnlyBlockModel,
    tx_context: Option<TransactionContextModel>,
    origin: EventOrigin,
)
    requires
        tx_context is Some <==> origin == EventOrigin::DeliverTx,
    ensures
        are_events(
            triggers::event_triggers(filter, events, block, tx_context, origin),
            filter,
            block,
            origin,
        ),
{
    let q = |found: TriggerModel|
        {
            &&& wanted(filter, found)
            &&& found is Event
            &&& found->origin == origin
            &&& found->event_data.block == Some(block)
            &&& found->event_data.tx is Some <==> origin == EventOrigin::DeliverTx
        };
    let select = triggers::event_selector(filter, block, tx_context, origin);
    sequences::lemma_filter_map_all(events, select, q);
    let all = triggers::event_triggers(filter, events, block, tx_context, origin);
    assert forall|k: int| 0 <= k < all.len() implies q(#[trigger] all[k]) by {}
}

proof fn lemma_delivered_triggers(
    filter: FilterModel,
    txs: Seq<TxResultModel>,
    block: HeaderOnlyBlockModel,
)
    ensures
        are_events(
            triggers::delivered_triggers(filter, txs, block),
            filter,
            block,
            EventOrigin::DeliverTx,
        ),
{
    let q = |found: TriggerModel|
        {
            &&& wanted(filter, found)
            &&& found is Event
            &&& found->origin == EventOrigin::DeliverTx
            &&& found->event_data.block == Some(block)
            &&& found->event_data.tx is Some
        };
    let f = |tx: TxResultModel| triggers::tx_event_triggers(filter, tx, block);
    assert forall|i: int, k: int|
        #![trigger f(txs[i])[k]]
        0 <= i < txs.len() && 0 <= k < f(txs[i]).len() implies q(f(txs[i])[k]) by {
        lemma_event_triggers(
            filter,
            txs[i].result->0.events,
            block,
            Some(triggers::tx_context(txs[i])),
            EventOrigin::DeliverTx,
        );
    }
    sequences::lemma_flat_map_all(txs, f, q);
    let all = triggers::delivered_triggers(filter, txs, block);
    assert forall|k: int| 0 <= k < all.len() implies q(#[trigger] all[k]) by {}
}

proof fn lemma_transaction_triggers(txs: Seq<TxResultModel>, block: HeaderOnlyBlockModel)
    ensures
        are_from_txs(triggers::transaction_triggers(txs, block), block),
{
    let q = |found: TriggerModel|
        {
            &&& found is Transaction || found is Message
            &&& header_of(found) == block
        };
    let f = |tx: TxResultModel| triggers::tx_triggers(tx, block);
    sequences::lemma_flat_map_all(txs, f, q);
    let all = triggers::transaction_triggers(txs, block);
    assert forall|k: int| 0 <= k < all.len() implies q(#[trigger] all[k]) by {}
}

/// What the parts of the triggers of a block hold.
pub proof fn lemma_parts(filter: FilterModel, block: BlockModel)
    ensures
        ({
            let header = block.header_only();
            let at = |events: Seq<EventModel>, origin: EventOrigin|
                triggers::event_triggers(filter, events, header, None, origin);
            &&& are_events(
                at(block.begin_events(), EventOrigin::BeginBlock),
                filter,
                header,
                EventOrigin::BeginBlock,
            )
            &&& are_events(
                triggers::delivered_triggers(filter, block.transactions, header),
                filter,
                header,
                EventOrigin::DeliverTx,
            )
            &&& are_events(
                at(block.end_events(), EventOrigin::EndBlock),
                filter,
                header,
                EventOrigin::EndBlock,
            )
            &&& are_from_txs(triggers::transaction_triggers(block.transactions, header), header)
        }),
{
    let header = block.header_only();
    lemma_event_triggers(filter, block.begin_events(), header, None, EventOrigin::BeginBlock);
    lemma_delivered_triggers(filter, block.transactions, header);
    lemma_event_triggers(filter, block.end_events(), header, None, EventOrigin::EndBlock);
    lemma_transaction_triggers(block.transactions, header);
}

/// An event triggers only if the filter wants events of its type.
pub proof fn law_events_match_the_filter(filter: FilterModel, block: BlockModel)
    ensures
        forall|k: int|
            #![trigger triggers::block_triggers(filter, block)[k]]
            0 <= k < triggers::block_triggers(filter, block).len()
                && triggers::block_triggers(filter, block)[k] is Event ==> wanted(
                filter,
                triggers::block_triggers(filter, block)[k],
            ),
{
    lemma_parts(filter, block);
}

/// Triggers come in the order of their ranks: the events of the beginning of the block, those of
/// its transactions, those of its end, then messages and transactions, then the block.
pub proof fn law_order(filter: FilterModel, block: BlockModel)
    ensures
        forall|i: int, k: int|
            0 <= i <= k < triggers::block_triggers(filter, block).len() ==> rank(
                #[trigger] triggers::block_triggers(filter, block)[i],
            ) <= rank(#[trigger] triggers::block_triggers(filter, block)[k]),
{
    lemma_parts(filter, block);
}

/// Every trigger carries the header of the block it was found in.
pub proof fn law_header(filter: FilterModel, block: BlockModel)
    ensures
        forall|k: int|
            #![trigger triggers::block_triggers(filter, block)[k]]
            0 <= k < triggers::block_triggers(filter, block).len() ==> header_of(
                triggers::block_triggers(filter, block)[k],
            ) == block.header_only() && header_of(
                triggers::block_triggers(filter, block)[k],
            ).header == block.header,
{
    lemma_parts(filter, block);
}

/// An event trigger names a transaction if and only if a transaction emitted the event.
pub proof fn law_context(filter: FilterModel, block: BlockModel)
    ensures
        forall|k: int|
            #![trigger triggers::block_triggers(filter, block)[k]]
            0 <= k < triggers::block_triggers(filter, block).len()
                && triggers::block_triggers(filter, block)[k] is Event ==> (
            triggers::block_triggers(filter, block)[k]->event_data.tx is Some
                <==> triggers::block_triggers(filter, block)[k]->origin == EventOrigin::DeliverTx),
{
    lemma_parts(filter, block);
}

proof fn lemma_events_of_one_origin(
    filter: FilterModel,
    events: Seq<EventModel>,
    block: HeaderOnlyBlockModel,
    tx_context: Option<TransactionContextModel>,
    origin: EventOrigin,
)
    ensures
        triggers::event_triggers(filter, events, block, tx_context, origin).map_values(
            |found: TriggerModel| event_of(found),
        ) == events.filter(|event: EventModel| filter.event_types.contains(event.event_type)),
    decreases events.len(),
{
    reveal(Seq::filter);
    let p = |event: EventModel| filter.event_types.contains(event.event_type);
    let m = |found: TriggerModel| event_of(found);
    let all = triggers::event_triggers(filter, events, block, tx_context, origin);
    if events.len() > 0 {
        let rest = events.drop_last();
        lemma_events_of_one_origin(filter, rest, block, tx_context, origin);
        let part = triggers::event_triggers(filter, rest, block, tx_context, origin);
        assert(part.map_values(m) == rest.filter(p));
        if p(events.last()) {
            let last = crate::trigger::event_trigger(events.last(), block, tx_context, origin);
            assert(all == part + seq![last]);
            assert(all.map_values(m) =~= part.map_values(m).push(events.last()));
        } else {
            assert(all == part);
        }
    } else {
        assert(all.map_values(m) =~= events.filter(p));
    }
}

proof fn lemma_events_of_transactions(
    filter: FilterModel,
    txs: Seq<TxResultModel>,
    block: HeaderOnlyBlockModel,
)
    ensures
        triggers::delivered_triggers(filter, txs, block).map_values(
            |found: TriggerModel| event_of(found),
        ) == txs.flat_map(|tx: TxResultModel| tx.result->0.events).filter(
            |event: EventModel| filter.event_types.contains(event.event_type),
        ),
    decreases txs.len(),
{
    let p = |event: EventModel| filter.event_types.contains(event.event_type);
    let m = |found: TriggerModel| event_of(found);
    let f = |tx: TxResultModel| triggers::tx_event_triggers(filter, tx, block);
    let e = |tx: TxResultModel| tx.result->0.events;
    let all = triggers::delivered_triggers(filter, txs, block);
    assert(all == txs.flat_map(f));
    if txs.len() > 0 {
        let rest = txs.drop_last();
        lemma_events_of_transactions(filter, rest, block);
        lemma_events_of_one_origin(
            filter,
            txs.last().result->0.events,
            block,
            Some(triggers::tx_context(txs.last())),
            EventOrigin::DeliverTx,
        );
        sequences::lemma_flat_map_unfold(txs, f);
        sequences::lemma_flat_map_unfold(txs, e);
        Seq::filter_distributes_over_add(rest.flat_map(e), e(txs.last()), p);
        assert(rest.flat_map(f).map_values(m) == rest.flat_map(e).filter(p));
        assert(all.map_values(m) =~= rest.flat_map(f).map_values(m) + f(txs.last()).map_values(m));
    } else {
        reveal(Seq::filter);
        assert(txs.flat_map(e) =~= Seq::empty());
        assert(all =~= Seq::empty());
        assert(all.map_values(m) =~= txs.flat_map(e).filter(p));
    }
}

/// The event triggers are for exactly the events of the block that the filter wants, each as
/// often as it occurs, in the order in which the block has them.
pub proof fn law_all_wanted_events_trigger(filter: FilterModel, block: BlockModel)
    ensures
        triggers::all_event_triggers(filter, block).map_values(
            |found: TriggerModel| event_of(found),
        ) == block_events(block).filter(
            |event: EventModel| filter.event_types.contains(event.event_type),
        ),
{
    let p = |event: EventModel| filter.event_types.contains(event.event_type);
    let m = |found: TriggerModel| event_of(found);
    let e = |tx: TxResultModel| tx.result->0.events;
    let header = block.header_only();
    let begin = triggers::event_triggers(
        filter,
        block.begin_events(),
        header,
        None,
        EventOrigin::BeginBlock,
    );
    let delivered = triggers::delivered_triggers(filter, block.transactions, header);
    let end = triggers::event_triggers(
        filter,
        block.end_events(),
        header,
        None,
        EventOrigin::EndBlock,
    );
    lemma_events_of_one_origin(filter, block.begin_events(), header, None, EventOrigin::BeginBlock);
    lemma_events_of_transactions(filter, block.transactions, header);
    lemma_events_of_one_origin(filter, block.end_events(), header, None, EventOrigin::EndBlock);
    assert(triggers::all_event_triggers(filter, block).map_values(m) =~= begin.map_values(m)
        + delivered.map_values(m) + end.map_values(m));
    Seq::filter_distributes_over_add(
        block.begin_events() + block.transactions.flat_map(e),
        block.end_events(),
        p,
    );
    Seq::filter_distributes_over_add(
        block.begin_events(),
        block.transactions.flat_map(e),
        p,
    );
}

/// Which parts of the triggers of a block hold which kinds of triggers.
proof fn lemma_kinds(filter: FilterModel, block: BlockModel)
    ensures
        forall|k: int|
            0 <= k < triggers::all_event_triggers(filter, block).len()
                ==> #[trigger] triggers::all_event_triggers(filter, block)[k] is Event,
        forall|k: int|
            #![trigger triggers::transaction_triggers(block.transactions, block.header_only())[k]]
            0 <= k < triggers::transaction_triggers(
                block.transactions,
                block.header_only(),
            ).len() ==> {
                ||| triggers::transaction_triggers(
                    block.transactions,
                    block.header_only(),
                )[k] is Transaction
                ||| triggers::transaction_triggers(
                    block.transactions,
                    block.header_only(),
                )[k] is Message
            },
{
    lemma_parts(filter, block);
}

/// The event triggers among the triggers of a block are those for its events, in order.
pub proof fn law_event_triggers(filter: FilterModel, block: BlockModel)
    ensures
        triggers::block_triggers(filter, block).filter(|found: TriggerModel| found is Event)
            == triggers::all_event_triggers(filter, block),
{
    let is_event = |found: TriggerModel| found is Event;
    let events = triggers::all_event_triggers(filter, block);
    let from_txs = triggers::transaction_triggers(block.transactions, block.header_only());
    let whole = triggers::whole_block_trigger(filter, block);
    assert(events.filter(is_event) == events) by {
        lemma_kinds(filter, block);
        sequences::lemma_filter_keeps_all(events, is_event);
    }
    assert(from_txs.filter(is_event) == Seq::<TriggerModel>::empty()) by {
        lemma_kinds(filter, block);
        sequences::lemma_filter_drops_all(from_txs, is_event);
    }
    assert(whole.filter(is_event) == Seq::<TriggerModel>::empty()) by {
        sequences::lemma_filter_drops_all(whole, is_event);
    }
    lemma_filter_parts(events, from_txs, whole, is_event);
    assert(events + Seq::<TriggerModel>::empty() + Seq::<TriggerModel>::empty() =~= events);
}

/// There is one trigger for the whole block if every block is wanted, and none otherwise.
pub proof fn law_block_trigger(filter: FilterModel, block: BlockModel)
    ensures
        triggers::block_triggers(filter, block).filter(|found: TriggerModel| found is Block)
            == triggers::whole_block_trigger(filter, block),
{
    let is_block = |found: TriggerModel| found is Block;
    let events = triggers::all_event_triggers(filter, block);
    let from_txs = triggers::transaction_triggers(block.transactions, block.header_only());
    let whole = triggers::whole_block_trigger(filter, block);
    assert(events.filter(is_block) == Seq::<TriggerModel>::empty()) by {
        lemma_kinds(filter, block);
        sequences::lemma_filter_drops_all(events, is_block);
    }
    assert(from_txs.filter(is_block) == Seq::<TriggerModel>::empty()) by {
        lemma_kinds(filter, block);
        sequences::lemma_filter_drops_all(from_txs, is_block);
    }
    assert(whole.filter(is_block) == whole) by {
        sequences::lemma_filter_keeps_all(whole, is_block);
    }
    lemma_filter_parts(events, from_txs, whole, is_block);
    assert(Seq::<TriggerModel>::empty() + Seq::<TriggerModel>::empty() + whole =~= whole);
}

/// There is exactly one trigger for each transaction, in order and whatever the filter is.
pub proof fn law_transaction_triggers(filter: FilterModel, block: BlockModel)
    ensures
        triggers::block_triggers(filter, block).filter(|found: TriggerModel| found is Transaction)
            == block.transactions.map_values(
            |tx: TxResultModel| crate::trigger::transaction_trigger(tx, block.header_only()),
        ),
{
    let header = block.header_only();
    let txs = block.transactions;
    let is_tx = |found: TriggerModel| found is Transaction;
    let events = triggers::all_event_triggers(filter, block);
    let from_txs = triggers::transaction_triggers(txs, header);
    let whole = triggers::whole_block_trigger(filter, block);
    let per_tx = |tx: TxResultModel| triggers::tx_triggers(tx, header);
    let one = |tx: TxResultModel| crate::trigger::transaction_trigger(tx, header);
    let only_tx = |tx: TxResultModel| seq![crate::trigger::transaction_trigger(tx, header)];
    assert(from_txs.filter(is_tx) == txs.map_values(one)) by {
        assert forall|tx: TxResultModel| #[trigger] only_tx(tx) == per_tx(tx).filter(is_tx) by {
            lemma_tx_triggers_by_kind(tx, header);
        }
        sequences::lemma_flat_map_filter(txs, per_tx, only_tx, is_tx);
        sequences::lemma_flat_map_singletons(txs, only_tx, one);
    }
    assert(events.filter(is_tx) == Seq::<TriggerModel>::empty()) by {
        lemma_kinds(filter, block);
        sequences::lemma_filter_drops_all(events, is_tx);
    }
    assert(whole.filter(is_tx) == Seq::<TriggerModel>::empty()) by {
        sequences::lemma_filter_drops_all(whole, is_tx);
    }
    lemma_filter_parts(events, from_txs, whole, is_tx);
    assert(Seq::<TriggerModel>::empty() + txs.map_values(one) + Seq::<TriggerModel>::empty()
        =~= txs.map_values(one));
}

/// There is exactly one trigger for each message in the body of a transaction, in order and
/// whatever the filter is.
pub proof fn law_message_triggers(filter: FilterModel, block: BlockModel)
    ensures
        triggers::block_triggers(filter, block).filter(|found: TriggerModel| found is Message)
            == block.transactions.flat_map(
            |tx: TxResultModel| message_triggers(tx, block.header_only()),
        ),
{
    let header = block.header_only();
    let txs = block.transactions;
    let is_message = |found: TriggerModel| found is Message;
    let events = triggers::all_event_triggers(filter, block);
    let from_txs = triggers::transaction_triggers(txs, header);
    let whole = triggers::whole_block_trigger(filter, block);
    let per_tx = |tx: TxResultModel| triggers::tx_triggers(tx, header);
    let only_messages = |tx: TxResultModel| message_triggers(tx, header);
    assert(from_txs.filter(is_message) == txs.flat_map(only_messages)) by {
        assert forall|tx: TxResultModel| #[trigger]
            only_messages(tx) == per_tx(tx).filter(is_message) by {
            lemma_tx_triggers_by_kind(tx, header);
        }
        sequences::lemma_flat_map_filter(txs, per_tx, only_messages, is_message);
    }
    assert(events.filter(is_message) == Seq::<TriggerModel>::empty()) by {
        lemma_kinds(filter, block);
        sequences::lemma_filter_drops_all(events, is_message);
    }
    assert(whole.filter(is_message) == Seq::<TriggerModel>::empty()) by {
        sequences::lemma_filter_drops_all(whole, is_message);
    }
    lemma_filter_parts(events, from_txs, whole, is_message);
    assert(Seq::<TriggerModel>::empty() + txs.flat_map(only_messages)
        + Seq::<TriggerModel>::empty() =~= txs.flat_map(only_messages));
}

/// The triggers for the messages of a transaction.
pub open spec fn message_triggers(
    tx: TxResultModel,
    block: HeaderOnlyBlockModel,
) -> Seq<TriggerModel> {
    triggers::tx_messages(tx).map_values(
        |message: AnyModel|
            crate::trigger::message_trigger(message, block, triggers::tx_context(tx)),
    )
}

proof fn lemma_filter_parts(
    a: Seq<TriggerModel>,
    b: Seq<TriggerModel>,
    c: Seq<TriggerModel>,
    p: spec_fn(TriggerModel) -> bool,
)
    ensures
        (a + b + c).filter(p) == a.filter(p) + b.filter(p) + c.filter(p),
{
    Seq::filter_distributes_over_add(a + b, c, p);
    Seq::filter_distributes_over_add(a, b, p);
}

proof fn lemma_tx_triggers_by_kind(tx: TxResultModel, block: HeaderOnlyBlockModel)
    ensures
        triggers::tx_triggers(tx, block).filter(|found: TriggerModel| found is Transaction)
            == seq![crate::trigger::transaction_trigger(tx, block)],
        triggers::tx_triggers(tx, block).filter(|found: TriggerModel| found is Message)
            == message_triggers(tx, block),
{
    let is_tx = |found: TriggerModel| found is Transaction;
    let is_message = |found: TriggerModel| found is Message;
    let messages = message_triggers(tx, block);
    assert(triggers::tx_triggers(tx, block) =~= messages.push(
        crate::trigger::transaction_trigger(tx, block),
    ));
    let last = crate::trigger::transaction_trigger(tx, block);
    messages.lemma_filter_push(last, is_tx);
    messages.lemma_filter_push(last, is_message);
    sequences::lemma_filter_drops_all(messages, is_tx);
    sequences::lemma_filter_keeps_all(messages, is_message);
    assert(Seq::<TriggerModel>::empty().push(last) =~= seq![last]);
}

/// A filter that wants fewer types of events finds exactly those triggers of a wider one that it
/// wants itself, in the same order.
pub proof fn law_narrower_filter(narrow: FilterModel, wide: FilterModel, block: BlockModel)
    requires
        narrow.event_types.subset_of(wide.event_types),
        narrow.trigger_every_block == wide.trigger_every_block,
    ensures
        triggers::block_triggers(narrow, block) == triggers::block_triggers(wide, block).filter(
            |found: TriggerModel| found is Event ==> wanted(narrow, found),
        ),
{
    let p = |found: TriggerModel| found is Event ==> wanted(narrow, found);
    let header = block.header_only();
    let txs = block.transactions;
    let begin = triggers::event_triggers(
        wide,
        block.begin_events(),
        header,
        None,
        EventOrigin::BeginBlock,
    );
    let delivered = triggers::delivered_triggers(wide, txs, header);
    let end = triggers::event_triggers(
        wide,
        block.end_events(),
        header,
        None,
        EventOrigin::EndBlock,
    );
    let from_txs = triggers::transaction_triggers(txs, header);
    let whole = triggers::whole_block_trigger(wide, block);
    lemma_filter_parts(begin + delivered + end, from_txs, whole, p);
    lemma_filter_parts(begin, delivered, end, p);
    lemma_narrower_events(
        narrow,
        wide,
        block.begin_events(),
        header,
        None,
        EventOrigin::BeginBlock,
    );
    lemma_narrower_events(narrow, wide, block.end_events(), header, None, EventOrigin::EndBlock);
    let wide_per_tx = |tx: TxResultModel| triggers::tx_event_triggers(wide, tx, header);
    let narrow_per_tx = |tx: TxResultModel| triggers::tx_event_triggers(narrow, tx, header);
    assert forall|tx: TxResultModel| #[trigger]
        narrow_per_tx(tx) == wide_per_tx(tx).filter(p) by {
        lemma_narrower_events(
            narrow,
            wide,
            tx.result->0.events,
            header,
            Some(triggers::tx_context(tx)),
            EventOrigin::DeliverTx,
        );
    }
    sequences::lemma_flat_map_filter(txs, wide_per_tx, narrow_per_tx, p);
    lemma_transaction_triggers(txs, header);
    sequences::lemma_filter_keeps_all(from_txs, p);
    sequences::lemma_filter_keeps_all(whole, p);
}

proof fn lemma_narrower_events(
    narrow: FilterModel,
    wide: FilterModel,
    events: Seq<EventModel>,
    block: HeaderOnlyBlockModel,
    tx_context: Option<TransactionContextModel>,
    origin: EventOrigin,
)
    requires
        narrow.event_types.subset_of(wide.event_types),
    ensures
        triggers::event_triggers(narrow, events, block, tx_context, origin)
            == triggers::event_triggers(wide, events, block, tx_context, origin).filter(
            |found: TriggerModel| found is Event ==> wanted(narrow, found),
        ),
{
    sequences::lemma_filter_map_filter(
        events,
        triggers::event_selector(wide, block, tx_context, origin),
        triggers::event_selector(narrow, block, tx_context, origin),
        |found: TriggerModel| found is Event ==> wanted(narrow, found),
    );
}

/// A filter that wants no events and not every block finds nothing in a block without
/// transactions.
pub proof fn law_nothing_wanted(filter: FilterModel, block: BlockModel)
    requires
        filter.event_types == Set::<Seq<char>>::empty(),
        !filter.trigger_every_block,
        block.transactions.len() == 0,
    ensures
        triggers::block_triggers(filter, block) == Seq::<TriggerModel>::empty(),
{
    let all = triggers::block_triggers(filter, block);
    let events = triggers::all_event_triggers(filter, block);
    assert(triggers::transaction_triggers(block.transactions, block.header_only())
        =~= Seq::empty());
    assert(all =~= events);
    lemma_kinds(filter, block);
    law_events_match_the_filter(filter, block);
    if all.len() > 0 {
        assert(all[0] is Event);
        assert(wanted(filter, all[0]));
    }
    assert(all =~= Seq::empty());
}

/// The cursor of an event.
pub open spec fn cursor_of(event: StreamEventModel) -> Seq<char> {
    match event {
        StreamEventModel::ProcessBlock { cursor, .. } => cursor,
        StreamEventModel::Revert { cursor, .. } => cursor,
    }
}

/// Every event carries the cursor of the response that it was made from.
pub proof fn law_cursor_kept(filter: FilterModel, response: ResponseModel)
    ensures
        firehose::response_event(filter, response) matches Ok(event) ==> cursor_of(event)
            == response.cursor,
{
}

/// An event for a response without a fault processes a block if the block is new, and reverts the
/// chain if the block is undone; with no other step is there an event.
pub proof fn law_step_decides(filter: FilterModel, response: ResponseModel)
    requires
        firehose::response_fault(response) is None,
    ensures
        firehose::response_event(filter, response) matches Ok(event) ==> {
            ||| firehose::fork_step(response.step) == Some(ForkStep::StepNew)
                && event is ProcessBlock
            ||| firehose::fork_step(response.step) == Some(ForkStep::StepUndo) && event is Revert
        },
{
}

/// The event for a block that is undone depends on the response alone: mappers with whatever
/// adapters and filters give the same outcome, be it an event or an error, also where the payload
/// is not an encoded block.
pub proof fn law_undo_ignores_the_mapper(
    first: &FirehoseMapper,
    second: &FirehoseMapper,
    response: &Response,
    first_res: Result<BlockStreamEvent, FirehoseError>,
    second_res: Result<BlockStreamEvent, FirehoseError>,
)
    requires
        firehose::fork_step(response.step) == Some(ForkStep::StepUndo),
        firehose::response_fault(response.deep_view()) is None,
        call_ensures(FirehoseMapper::to_block_stream_event, (first, response), first_res),
        call_ensures(FirehoseMapper::to_block_stream_event, (second, response), second_res),
    ensures
        firehose::response_event(first.filter.deep_view(), response.deep_view())
            == firehose::response_event(second.filter.deep_view(), response.deep_view()),
        firehose::outcome(first_res) == firehose::outcome(second_res),
        decode::decoded_block(response.deep_view().block->0.value) is None ==> firehose::outcome(
            first_res,
        ) == Err::<StreamEventModel, ErrorModel>(ErrorModel::Decode),
{
}

/// A payload that is not an encoded block is an error, whatever step it comes with.
pub proof fn law_bad_payload(filter: FilterModel, response: ResponseModel)
    requires
        firehose::fork_step(response.step) is Some,
        response.block is Some,
        decode::decoded_block(response.block->0.value) is None,
    ensures
        firehose::response_fault(response) is None,
        firehose::response_event(filter, response) == Err::<StreamEventModel, ErrorModel>(
            ErrorModel::Decode,
        ),
{
}

/// A processed block is the one in the payload, with the triggers that the filter finds in it.
pub proof fn law_processed_block(filter: FilterModel, response: ResponseModel, block: BlockModel)
    requires
        firehose::response_fault(response) is None,
        firehose::fork_step(response.step) == Some(ForkStep::StepNew),
        decode::decoded_block(response.block->0.value) == Some(block),
        block.has_results(),
    ensures
        block.has_tx_results(),
        firehose::response_event(filter, response) == Ok::<StreamEventModel, ErrorModel>(
            StreamEventModel::ProcessBlock {
                block,
                triggers: triggers::block_triggers(filter, block),
                cursor: response.cursor,
            },
        ),
{
}

/// A revert goes to the parent that the header of the undone block names, which is one block
/// back and a valid block number. The filter does not matter.
pub proof fn law_revert_one_back(filter: FilterModel, response: ResponseModel, block: BlockModel)
    requires
        firehose::response_fault(response) is None,
        firehose::fork_step(response.step) == Some(ForkStep::StepUndo),
        decode::decoded_block(response.block->0.value) == Some(block),
        block.header is Some,
    ensures
        block.header->0.last_block_id is Some,
        firehose::response_event(filter, response) matches Ok(event) && {
            &&& event is Revert
            &&& event->parent.hash == block.header->0.last_block_id->0.hash
            &&& event->parent.number + 1 == block.header->0.height
            &&& 0 <= event->parent.number <= i32::MAX
        },
{
}

/// The genesis block is never reverted.
pub proof fn law_genesis_is_not_reverted(response: ResponseModel, block: BlockModel)
    requires
        firehose::fork_step(response.step) == Some(ForkStep::StepUndo),
        response.block is Some,
        decode::decoded_block(response.block->0.value) == Some(block),
        block.header is Some,
        block.header->0.last_block_id is None,
    ensures
        firehose::response_fault(response) == Some(Fault::GenesisReverted),
{
}

/// What a payload says of its own type does not matter.
pub proof fn law_type_url_is_ignored(
    filter: FilterModel,
    response: ResponseModel,
    other: ResponseModel,
)
    requires
        response.block is Some,
        other.block is Some,
        response.block->0.value == other.block->0.value,
        response.step == other.step,
        response.cursor == other.cursor,
    ensures
        firehose::response_fault(response) == firehose::response_fault(other),
        firehose::response_event(filter, response) == firehose::response_event(filter, other),
{
}

/// Decoding undoes encoding: a block is what decoding its own encoding gives.
pub proof fn law_decoding_undoes_encoding(block: BlockModel)
    requires
        encode::is_encodable(block),
    ensures
        decode::decoded_block(encode::encoded_block(block)) == Some(block),
{
    round_trip::lemma_block_round_trip(block);
}

/// In every block that comes of decoding, the parts that stay encoded are messages.
pub proof fn law_decoded_parts_are_messages(input: Seq<u8>)
    ensures
        decode::decoded_block(input) matches Some(block) ==> encode::parts_are_messages(block),
{
    parts::lemma_block_parts(input);
}

/// A decoded block can be encoded and decoded once more without change, whatever bytes it was
/// decoded from, as long as the length of the encoding fits in 64 bits.
pub proof fn law_decoded_block_is_kept(input: Seq<u8>, block: BlockModel)
    requires
        decode::decoded_block(input) == Some(block),
        encode::encoded_block(block).len() <= u64::MAX,
    ensures
        decode::decoded_block(encode::encoded_block(block)) == Some(block),
{
    law_decoded_parts_are_messages(input);
    law_decoding_undoes_encoding(block);
}

/// A mapper that is handed the encoding of a block decodes that block.
pub proof fn law_mapper_decodes_the_encoded_block(
    mapper: &FirehoseMapper,
    block: BlockModel,
    payload: &[u8],
    res: Result<Option<Block>, Error>,
)
    requires
        encode::is_encodable(block),
        payload@ == encode::encoded_block(block),
        call_ensures(FirehoseMapper::decode_block, (mapper, Some(payload)), res),
    ensures
        res matches Ok(Some(decoded)) && decoded.deep_view() == block,
{
    law_decoding_undoes_encoding(block);
}

} // verus!
