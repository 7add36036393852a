//! What the triggers of a block say about the block, call by call.
//!
//! The laws speak of what a call gave and of what it was handed, field by field.

use crate::adapter::{FilterModel, TriggerFilter};
use crate::codec::{
    Any, AnyModel, Block, BlockModel, Event, EventDataModel, EventModel, HeaderOnlyBlock,
    HeaderOnlyBlockModel, MessageDataModel, TransactionContext, TransactionContextModel,
    TransactionDataModel, TxResult, TxResultModel,
};
use crate::error::Error;
use crate::trigger::{CosmosTrigger, EventOrigin, TriggerModel};
use crate::triggers::{
    build_tx_context, filter_event_trigger, BlockWithTriggers, TriggersAdapter,
};
use crate::{laws, sequences, triggers};
use vstd::prelude::*;

verus! {

/// Selects the events of the types that a filter wants.
pub open spec fn wants(filter: FilterModel) -> spec_fn(EventModel) -> bool {
    |event: EventModel| filter.event_types.contains(event.event_type)
}

/// Selects the event triggers of one origin.
pub open spec fn from_origin(origin: EventOrigin) -> spec_fn(TriggerModel) -> bool {
    |found: TriggerModel| found is Event && found->origin == origin
}

/// Selects the message triggers.
pub open spec fn for_message() -> spec_fn(TriggerModel) -> bool {
    |found: TriggerModel| found is Message
}

/// Selects the transaction triggers.
pub open spec fn for_transaction() -> spec_fn(TriggerModel) -> bool {
    |found: TriggerModel| found is Transaction
}

/// Selects the triggers for whole blocks.
pub open spec fn for_block() -> spec_fn(TriggerModel) -> bool {
    |found: TriggerModel| found is Block
}

/// Selects the triggers for transactions and for their messages.
pub open spec fn for_transaction_or_message() -> spec_fn(TriggerModel) -> bool {
    |found: TriggerModel| found is Transaction || found is Message
}

/// What an event trigger carries.
pub open spec fn event_data() -> spec_fn(TriggerModel) -> EventDataModel {
    |found: TriggerModel| found->event_data
}

/// What a message trigger carries.
pub open spec fn message_data() -> spec_fn(TriggerModel) -> MessageDataModel {
    |found: TriggerModel| found->Message_0
}

/// What a transaction trigger carries.
pub open spec fn transaction_data() -> spec_fn(TriggerModel) -> TransactionDataModel {
    |found: TriggerModel| found->Transaction_0
}

/// An event together with the header of its block and the transaction that emitted it.
pub open spec fn with_header(block: BlockModel, tx: Option<TxResultModel>) -> spec_fn(
    EventModel,
) -> EventDataModel {
    |event: EventModel|
        EventDataModel {
            event: Some(event),
            block: Some(HeaderOnlyBlockModel { header: block.header }),
            tx: match tx {
                Some(tx) => Some(
                    TransactionContextModel {
                        hash: tx.hash,
                        index: tx.index,
                        code: tx.result->0.code,
                        gas_wanted: tx.result->0.gas_wanted,
                        gas_used: tx.result->0.gas_used,
                    },
                ),
                None => None,
            },
        }
}

/// The messages that the body of a transaction holds, where there is a body.
pub open spec fn messages_in(tx: TxResultModel) -> Seq<AnyModel> {
    if tx.tx is Some && tx.tx->0.body is Some {
        tx.tx->0.body->0.messages
    } else {
        Seq::empty()
    }
}

/// A message together with the header of its block and its transaction.
pub open spec fn sent_in(block: BlockModel, tx: TxResultModel) -> spec_fn(
    AnyModel,
) -> MessageDataModel {
    |message: AnyModel|
        MessageDataModel {
            message: Some(message),
            block: Some(HeaderOnlyBlockModel { header: block.header }),
            tx: Some(
                TransactionContextModel {
                    hash: tx.hash,
                    index: tx.index,
                    code: tx.result->0.code,
                    gas_wanted: tx.result->0.gas_wanted,
                    gas_used: tx.result->0.gas_used,
                },
            ),
        }
}

/// Mapping what the elements are mapped to maps the whole.
proof fn lemma_flat_map_map<A, B, C>(
    s: Seq<A>,
    f: spec_fn(A) -> Seq<B>,
    m: spec_fn(B) -> C,
    g: spec_fn(A) -> Seq<C>,
)
    requires
        forall|a: A| #[trigger] g(a) == f(a).map_values(m),
    ensures
        s.flat_map(f).map_values(m) == s.flat_map(g),
    decreases s.len(),
{
    if s.len() > 0 {
        let rest = s.drop_last();
        lemma_flat_map_map(rest, f, m, g);
        sequences::lemma_flat_map_unfold(s, f);
        sequences::lemma_flat_map_unfold(s, g);
        assert(s.flat_map(f).map_values(m) =~= rest.flat_map(f).map_values(m) + f(
            s.last(),
        ).map_values(m));
    } else {
        assert(s.flat_map(f).map_values(m) =~= s.flat_map(g));
    }
}

/// What the triggers for a list of events carry.
proof fn lemma_event_data(
    filter: FilterModel,
    events: Seq<EventModel>,
    header: HeaderOnlyBlockModel,
    context: Option<TransactionContextModel>,
    origin: EventOrigin,
    make: spec_fn(EventModel) -> EventDataModel,
)
    requires
        forall|event: EventModel| #[trigger]
            make(event) == (EventDataModel {
                event: Some(event),
                block: Some(header),
                tx: context,
            }),
    ensures
        triggers::event_triggers(filter, events, header, context, origin).map_values(event_data())
            == events.filter(wants(filter)).map_values(make),
    decreases events.len(),
{
    reveal(Seq::filter);
    let all = triggers::event_triggers(filter, events, header, context, origin);
    let expected = events.filter(wants(filter)).map_values(make);
    if events.len() > 0 {
        let rest = events.drop_last();
        let part = triggers::event_triggers(filter, rest, header, context, origin);
        lemma_event_data(filter, rest, header, context, origin, make);
        if wants(filter)(events.last()) {
            assert(all.map_values(event_data()) =~= part.map_values(event_data()).push(
                make(events.last()),
            ));
            assert(expected =~= rest.filter(wants(filter)).map_values(make).push(
                make(events.last()),
            ));
        } else {
            assert(all == part);
        }
    } else {
        assert(all.map_values(event_data()) =~= expected);
    }
}

/// Filtering five parts filters each of them.
proof fn lemma_five_parts(
    a: Seq<TriggerModel>,
    b: Seq<TriggerModel>,
    c: Seq<TriggerModel>,
    d: Seq<TriggerModel>,
    e: Seq<TriggerModel>,
    p: spec_fn(TriggerModel) -> bool,
)
    ensures
        (a + b + c + d + e).filter(p) == a.filter(p) + b.filter(p) + c.filter(p) + d.filter(p)
            + e.filter(p),
{
    Seq::filter_distributes_over_add(a + b + c + d, e, p);
    Seq::filter_distributes_over_add(a + b + c, d, p);
    Seq::filter_distributes_over_add(a + b, c, p);
    Seq::filter_distributes_over_add(a, b, p);
}

/// The parts that the triggers of a block are made of.
spec fn begin_part(filter: FilterModel, block: BlockModel) -> Seq<TriggerModel> {
    triggers::event_triggers(
        filter,
        block.begin_events(),
        block.header_only(),
        None,
        EventOrigin::BeginBlock,
    )
}

spec fn delivered_part(filter: FilterModel, block: BlockModel) -> Seq<TriggerModel> {
    triggers::delivered_triggers(filter, block.transactions, block.header_only())
}

spec fn end_part(filter: FilterModel, block: BlockModel) -> Seq<TriggerModel> {
    triggers::event_triggers(
        filter,
        block.end_events(),
        block.header_only(),
        None,
        EventOrigin::EndBlock,
    )
}

spec fn tx_part(block: BlockModel) -> Seq<TriggerModel> {
    triggers::transaction_triggers(block.transactions, block.header_only())
}

spec fn whole_part(filter: FilterModel, block: BlockModel) -> Seq<TriggerModel> {
    triggers::whole_block_trigger(filter, block)
}

/// Which of the parts a selection keeps.
spec fn keeps(p: spec_fn(TriggerModel) -> bool, part: Seq<TriggerModel>, kept: bool) -> bool {
    forall|k: int| 0 <= k < part.len() ==> p(#[trigger] part[k]) == kept
}

proof fn lemma_selection(p: spec_fn(TriggerModel) -> bool, part: Seq<TriggerModel>, kept: bool)
    requires
        keeps(p, part, kept),
    ensures
        part.filter(p) == if kept {
            part
        } else {
            Seq::empty()
        },
{
    if kept {
        sequences::lemma_filter_keeps_all(part, p);
    } else {
        sequences::lemma_filter_drops_all(part, p);
    }
}

proof fn lemma_select(
    filter: FilterModel,
    block: BlockModel,
    p: spec_fn(TriggerModel) -> bool,
    begin: bool,
    delivered: bool,
    end: bool,
    whole: bool,
)
    requires
        keeps(p, begin_part(filter, block), begin),
        keeps(p, delivered_part(filter, block), delivered),
        keeps(p, end_part(filter, block), end),
        keeps(p, whole_part(filter, block), whole),
    ensures
        triggers::block_triggers(filter, block).filter(p) == (if begin {
            begin_part(filter, block)
        } else {
            Seq::empty()
        }) + (if delivered {
            delivered_part(filter, block)
        } else {
            Seq::empty()
        }) + (if end {
            end_part(filter, block)
        } else {
            Seq::empty()
        }) + tx_part(block).filter(p) + (if whole {
            whole_part(filter, block)
        } else {
            Seq::empty()
        }),
{
    lemma_selection(p, begin_part(filter, block), begin);
    lemma_selection(p, delivered_part(filter, block), delivered);
    lemma_selection(p, end_part(filter, block), end);
    lemma_selection(p, whole_part(filter, block), whole);
    lemma_five_parts(
        begin_part(filter, block),
        delivered_part(filter, block),
        end_part(filter, block),
        tx_part(block),
        whole_part(filter, block),
        p,
    );
}

/// The events that a block reports for its beginning.
pub open spec fn events_at_begin(block: BlockModel) -> Seq<EventModel> {
    block.result_begin_block->0.events
}

/// The events that a block reports for its end.
pub open spec fn events_at_end(block: BlockModel) -> Seq<EventModel> {
    block.result_end_block->0.events
}

/// What the event triggers for one transaction carry.
pub open spec fn delivered_by(filter: FilterModel, block: BlockModel) -> spec_fn(
    TxResultModel,
) -> Seq<EventDataModel> {
    |tx: TxResultModel|
        tx.result->0.events.filter(wants(filter)).map_values(with_header(block, Some(tx)))
}

/// What the message triggers for one transaction carry.
pub open spec fn messages_by(block: BlockModel) -> spec_fn(TxResultModel) -> Seq<
    MessageDataModel,
> {
    |tx: TxResultModel| messages_in(tx).map_values(sent_in(block, tx))
}

/// Which triggers of one transaction are for the transaction itself: after one for each of its
/// messages, the last.
pub open spec fn pattern() -> spec_fn(TxResultModel) -> Seq<bool> {
    |tx: TxResultModel| Seq::new(messages_in(tx).len(), |i: int| false).push(true)
}

proof fn lemma_keeps(filter: FilterModel, block: BlockModel, origin: EventOrigin)
    ensures
        keeps(from_origin(origin), begin_part(filter, block), origin == EventOrigin::BeginBlock),
        keeps(
            from_origin(origin),
            delivered_part(filter, block),
            origin == EventOrigin::DeliverTx,
        ),
        keeps(from_origin(origin), end_part(filter, block), origin == EventOrigin::EndBlock),
        keeps(from_origin(origin), tx_part(block), false),
        keeps(from_origin(origin), whole_part(filter, block), false),
{
    laws::lemma_parts(filter, block);
}

/// The triggers of one origin are one of the parts.
proof fn lemma_origin(filter: FilterModel, block: BlockModel, origin: EventOrigin)
    ensures
        triggers::block_triggers(filter, block).filter(from_origin(origin)) == match origin {
            EventOrigin::BeginBlock => begin_part(filter, block),
            EventOrigin::DeliverTx => delivered_part(filter, block),
            EventOrigin::EndBlock => end_part(filter, block),
        },
{
    let none = Seq::<TriggerModel>::empty();
    lemma_keeps(filter, block, origin);
    lemma_selection(from_origin(origin), tx_part(block), false);
    lemma_select(
        filter,
        block,
        from_origin(origin),
        origin == EventOrigin::BeginBlock,
        origin == EventOrigin::DeliverTx,
        origin == EventOrigin::EndBlock,
        false,
    );
    match origin {
        EventOrigin::BeginBlock => {
            let part = begin_part(filter, block);
            assert(part + none + none + none + none =~= part);
        },
        EventOrigin::DeliverTx => {
            let part = delivered_part(filter, block);
            assert(none + part + none + none + none =~= part);
        },
        EventOrigin::EndBlock => {
            let part = end_part(filter, block);
            assert(none + none + part + none + none =~= part);
        },
    }
}

proof fn lemma_begin_events(filter: FilterModel, block: BlockModel)
    requires
        block.result_begin_block is Some,
    ensures
        triggers::block_triggers(filter, block).filter(
            from_origin(EventOrigin::BeginBlock),
        ).map_values(event_data()) == events_at_begin(block).filter(wants(filter)).map_values(
            with_header(block, None),
        ),
{
    lemma_origin(filter, block, EventOrigin::BeginBlock);
    lemma_event_data(
        filter,
        block.begin_events(),
        block.header_only(),
        None,
        EventOrigin::BeginBlock,
        with_header(block, None),
    );
}

proof fn lemma_end_events(filter: FilterModel, block: BlockModel)
    requires
        block.result_end_block is Some,
    ensures
        triggers::block_triggers(filter, block).filter(
            from_origin(EventOrigin::EndBlock),
        ).map_values(event_data()) == events_at_end(block).filter(wants(filter)).map_values(
            with_header(block, None),
        ),
{
    lemma_origin(filter, block, EventOrigin::EndBlock);
    lemma_event_data(
        filter,
        block.end_events(),
        block.header_only(),
        None,
        EventOrigin::EndBlock,
        with_header(block, None),
    );
}

proof fn lemma_delivered_events(filter: FilterModel, block: BlockModel)
    ensures
        triggers::block_triggers(filter, block).filter(
            from_origin(EventOrigin::DeliverTx),
        ).map_values(event_data()) == block.transactions.flat_map(delivered_by(filter, block)),
{
    let header = block.header_only();
    lemma_origin(filter, block, EventOrigin::DeliverTx);
    let per_tx = |tx: TxResultModel| triggers::tx_event_triggers(filter, tx, header);
    assert forall|tx: TxResultModel| #[trigger]
        delivered_by(filter, block)(tx) == per_tx(tx).map_values(event_data()) by {
        lemma_event_data(
            filter,
            tx.result->0.events,
            header,
            Some(triggers::tx_context(tx)),
            EventOrigin::DeliverTx,
            with_header(block, Some(tx)),
        );
    }
    lemma_flat_map_map(block.transactions, per_tx, event_data(), delivered_by(filter, block));
}

proof fn lemma_message_data(filter: FilterModel, block: BlockModel)
    ensures
        triggers::block_triggers(filter, block).filter(for_message()).map_values(message_data())
            == block.transactions.flat_map(messages_by(block)),
{
    let found = |tx: TxResultModel| laws::message_triggers(tx, block.header_only());
    laws::law_message_triggers(filter, block);
    assert(triggers::block_triggers(filter, block).filter(for_message())
        == block.transactions.flat_map(found));
    assert forall|tx: TxResultModel| #[trigger]
        messages_by(block)(tx) == found(tx).map_values(message_data()) by {
        assert(messages_by(block)(tx) =~= found(tx).map_values(message_data()));
    }
    lemma_flat_map_map(block.transactions, found, message_data(), messages_by(block));
}

proof fn lemma_transaction_data(filter: FilterModel, block: BlockModel)
    ensures
        triggers::block_triggers(filter, block).filter(for_transaction()).map_values(
            transaction_data(),
        ) == block.transactions.map_values(
            |tx: TxResultModel|
                TransactionDataModel {
                    tx: Some(tx),
                    block: Some(HeaderOnlyBlockModel { header: block.header }),
                },
        ),
{
    laws::law_transaction_triggers(filter, block);
    let one = |tx: TxResultModel|
        crate::trigger::transaction_trigger(tx, block.header_only());
    assert(triggers::block_triggers(filter, block).filter(for_transaction())
        == block.transactions.map_values(one));
    assert(block.transactions.map_values(one).map_values(transaction_data())
        =~= block.transactions.map_values(
        |tx: TxResultModel|
            TransactionDataModel {
                tx: Some(tx),
                block: Some(HeaderOnlyBlockModel { header: block.header }),
            },
    ));
}

proof fn lemma_pattern(filter: FilterModel, block: BlockModel)
    ensures
        triggers::block_triggers(filter, block).filter(for_transaction_or_message()).map_values(
            for_transaction(),
        ) == block.transactions.flat_map(pattern()),
{
    laws::lemma_parts(filter, block);
    let none = Seq::<TriggerModel>::empty();
    let part = tx_part(block);
    lemma_select(filter, block, for_transaction_or_message(), false, false, false, false);
    sequences::lemma_filter_keeps_all(part, for_transaction_or_message());
    assert(none + none + none + part + none =~= part);
    let per_tx = |tx: TxResultModel| triggers::tx_triggers(tx, block.header_only());
    assert forall|tx: TxResultModel| #[trigger]
        pattern()(tx) == per_tx(tx).map_values(for_transaction()) by {
        assert(pattern()(tx) =~= per_tx(tx).map_values(for_transaction()));
    }
    lemma_flat_map_map(block.transactions, per_tx, for_transaction(), pattern());
}

/// Triggers are found in a block exactly if it reports what happened at its beginning and at its
/// end, provided that each of its transactions has an outcome. What is missing is told
/// otherwise. The block is handed back.
pub proof fn law_blocks_with_triggers(
    adapter: &TriggersAdapter,
    block: Block,
    filter: &TriggerFilter,
    res: Result<BlockWithTriggers, Error>,
)
    requires
        call_ensures(TriggersAdapter::triggers_in_block, (adapter, block, filter), res),
    ensures
        match res {
            Ok(found) => {
                &&& block.result_begin_block is Some
                &&& block.result_end_block is Some
                &&& found.block == block
            },
            Err(Error::MissingBeginBlock) => block.result_begin_block is None,
            Err(Error::MissingEndBlock) => block.result_begin_block is Some
                && block.result_end_block is None,
            Err(_) => false,
        },
{
}

/// Triggers can be looked for in every block whose transactions all have an outcome, and in every
/// block that does not report its beginning or its end.
pub proof fn law_blocks_that_can_be_searched(
    adapter: &TriggersAdapter,
    block: Block,
    filter: &TriggerFilter,
)
    requires
        ({
            ||| block.result_begin_block is None
            ||| block.result_end_block is None
            ||| forall|i: int|
                0 <= i < block.transactions@.len() ==> (#[trigger] block.transactions@[i]).result
                    is Some
        }),
    ensures
        call_requires(TriggersAdapter::triggers_in_block, (adapter, block, filter)),
{
    let model = block.deep_view();
    assert forall|i: int|
        model.has_results() && 0 <= i < model.transactions.len() implies (
    #[trigger] model.transactions[i]).result is Some by {
        assert(block.transactions@[i].result is Some);
    }
}

/// The event triggers of a block are for the events of wanted types that the block reports for
/// its beginning, for its transactions and for its end, under the origin that says which. Each
/// carries the event, the header of the block, and for an event of a transaction the hash, the
/// index, the code and the gas of that transaction.
pub proof fn law_events_found(
    adapter: &TriggersAdapter,
    block: Block,
    filter: &TriggerFilter,
    found: BlockWithTriggers,
)
    requires
        call_ensures(
            TriggersAdapter::triggers_in_block,
            (adapter, block, filter),
            Ok::<BlockWithTriggers, Error>(found),
        ),
    ensures
        found.trigger_data.deep_view().filter(from_origin(EventOrigin::BeginBlock)).map_values(
            event_data(),
        ) == events_at_begin(block.deep_view()).filter(wants(filter.deep_view())).map_values(
            with_header(block.deep_view(), None),
        ),
        found.trigger_data.deep_view().filter(from_origin(EventOrigin::DeliverTx)).map_values(
            event_data(),
        ) == block.deep_view().transactions.flat_map(
            delivered_by(filter.deep_view(), block.deep_view()),
        ),
        found.trigger_data.deep_view().filter(from_origin(EventOrigin::EndBlock)).map_values(
            event_data(),
        ) == events_at_end(block.deep_view()).filter(wants(filter.deep_view())).map_values(
            with_header(block.deep_view(), None),
        ),
{
    lemma_begin_events(filter.deep_view(), block.deep_view());
    lemma_delivered_events(filter.deep_view(), block.deep_view());
    lemma_end_events(filter.deep_view(), block.deep_view());
}

/// The message triggers of a block are for the messages in the bodies of its transactions, in
/// order. Each carries the message, the header of the block, and the hash, the index, the code
/// and the gas of the transaction.
pub proof fn law_messages_found(
    adapter: &TriggersAdapter,
    block: Block,
    filter: &TriggerFilter,
    found: BlockWithTriggers,
)
    requires
        call_ensures(
            TriggersAdapter::triggers_in_block,
            (adapter, block, filter),
            Ok::<BlockWithTriggers, Error>(found),
        ),
    ensures
        found.trigger_data.deep_view().filter(for_message()).map_values(message_data())
            == block.deep_view().transactions.flat_map(messages_by(block.deep_view())),
{
    lemma_message_data(filter.deep_view(), block.deep_view());
}

/// The transaction triggers of a block are for its transactions, in order. Each carries the
/// transaction and the header of the block.
pub proof fn law_transactions_found(
    adapter: &TriggersAdapter,
    block: Block,
    filter: &TriggerFilter,
    found: BlockWithTriggers,
)
    requires
        call_ensures(
            TriggersAdapter::triggers_in_block,
            (adapter, block, filter),
            Ok::<BlockWithTriggers, Error>(found),
        ),
    ensures
        found.trigger_data.deep_view().filter(for_transaction()).map_values(transaction_data())
            == block.deep_view().transactions.map_values(
            |tx: TxResultModel|
                TransactionDataModel {
                    tx: Some(tx),
                    block: Some(HeaderOnlyBlockModel { header: block.deep_view().header }),
                },
        ),
{
    lemma_transaction_data(filter.deep_view(), block.deep_view());
}

/// The block itself is a trigger, once, exactly if the filter asks for every block.
pub proof fn law_whole_block_found(
    adapter: &TriggersAdapter,
    block: Block,
    filter: &TriggerFilter,
    found: BlockWithTriggers,
)
    requires
        call_ensures(
            TriggersAdapter::triggers_in_block,
            (adapter, block, filter),
            Ok::<BlockWithTriggers, Error>(found),
        ),
    ensures
        found.trigger_data.deep_view().filter(for_block())
            == if filter.block_filter.trigger_every_block {
            seq![TriggerModel::Block(block.deep_view())]
        } else {
            Seq::empty()
        },
{
    laws::law_block_trigger(filter.deep_view(), block.deep_view());
}

/// The triggers come in this order: the events of the beginning, those of the transactions, those
/// of the end; then for each transaction its messages and itself; then the block.
pub proof fn law_order_found(
    adapter: &TriggersAdapter,
    block: Block,
    filter: &TriggerFilter,
    found: BlockWithTriggers,
)
    requires
        call_ensures(
            TriggersAdapter::triggers_in_block,
            (adapter, block, filter),
            Ok::<BlockWithTriggers, Error>(found),
        ),
    ensures
        forall|i: int, k: int|
            0 <= i <= k < found.trigger_data.deep_view().len() ==> laws::rank(
                #[trigger] found.trigger_data.deep_view()[i],
            ) <= laws::rank(#[trigger] found.trigger_data.deep_view()[k]),
        found.trigger_data.deep_view().filter(for_transaction_or_message()).map_values(
            for_transaction(),
        ) == block.deep_view().transactions.flat_map(pattern()),
{
    laws::law_order(filter.deep_view(), block.deep_view());
    lemma_pattern(filter.deep_view(), block.deep_view());
}

/// A trigger for an event carries the event, the block and the transaction it is made with.
pub proof fn law_with_event(
    event: Event,
    block: HeaderOnlyBlock,
    context: Option<TransactionContext>,
    origin: EventOrigin,
    res: CosmosTrigger,
)
    requires
        call_ensures(CosmosTrigger::with_event, (event, block, context, origin), res),
    ensures
        res is Event,
        res->origin == origin,
        res->event_data.event == Some(event),
        res->event_data.block == Some(block),
        res->event_data.tx == context,
{
}

/// A trigger for a transaction carries the transaction and the block it is made with.
pub proof fn law_with_transaction(tx: TxResult, block: HeaderOnlyBlock, res: CosmosTrigger)
    requires
        call_ensures(CosmosTrigger::with_transaction, (tx, block), res),
    ensures
        res is Transaction,
        res->Transaction_0.tx == Some(tx),
        res->Transaction_0.block == Some(block),
{
}

/// A trigger for a message carries the message, the block and the transaction it is made with.
pub proof fn law_with_message(
    message: Any,
    block: HeaderOnlyBlock,
    context: TransactionContext,
    res: CosmosTrigger,
)
    requires
        call_ensures(CosmosTrigger::with_message, (message, block, context), res),
    ensures
        res is Message,
        res->Message_0.message == Some(message),
        res->Message_0.block == Some(block),
        res->Message_0.tx == Some(context),
{
}

/// The context of a transaction repeats its hash and index, and code and gas of its outcome.
pub proof fn law_build_tx_context(tx: &TxResult, res: TransactionContext)
    requires
        tx.result is Some,
        call_ensures(build_tx_context, (tx,), res),
    ensures
        res.hash@ == tx.hash@,
        res.index == tx.index,
        res.code == tx.result->0.code,
        res.gas_wanted == tx.result->0.gas_wanted,
        res.gas_used == tx.result->0.gas_used,
{
}

/// The context of every transaction with an outcome can be built.
pub proof fn law_tx_context_can_be_built(tx: &TxResult)
    requires
        tx.result is Some,
    ensures
        call_requires(build_tx_context, (tx,)),
{
}

/// An event triggers exactly if its type is one that the filter wants. The trigger carries it
/// unchanged.
pub proof fn law_filter_event_trigger(
    filter: &TriggerFilter,
    event: Event,
    block: &HeaderOnlyBlock,
    context: Option<TransactionContext>,
    origin: EventOrigin,
    res: Option<CosmosTrigger>,
)
    requires
        call_ensures(filter_event_trigger, (filter, event, block, context, origin), res),
    ensures
        match res {
            Some(found) => {
                &&& filter.event_type_filter.event_types@.contains(event.event_type@)
                &&& found is Event
                &&& found->origin == origin
                &&& found->event_data.event == Some(event)
                &&& found->event_data.block is Some
                &&& found->event_data.block->0.deep_view() == block.deep_view()
                &&& found->event_data.tx == context
            },
            None => !filter.event_type_filter.event_types@.contains(event.event_type@),
        },
{
}

/// What is left of a block is its header.
pub proof fn law_header_only(block: &Block, res: HeaderOnlyBlock)
    requires
        call_ensures(<HeaderOnlyBlock as From<&Block>>::from, (block,), res),
    ensures
        res.header.deep_view() == block.header.deep_view(),
{
}

} // verus!
