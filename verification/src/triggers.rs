//! Turning a block into triggers.

use crate::adapter::{FilterModel, TriggerFilter};
use crate::block::{BlockHash, BlockPtr};
use crate::codec::{
    AnyModel, Block, BlockModel, Event, EventModel, HeaderOnlyBlock, HeaderOnlyBlockModel,
    TransactionContext, TransactionContextModel, TxResult, TxResultModel,
};
use crate::error::Error;
use crate::trigger::{CosmosTrigger, EventOrigin, TriggerModel};
use std::sync::Arc;
use vstd::prelude::*;

verus! {

/// A block and the triggers found in it.
#[derive(Debug)]
pub struct BlockWithTriggers {
    pub block: Block,
    pub trigger_data: Vec<CosmosTrigger>,
}

impl BlockWithTriggers {
    /// Puts a block and its triggers together.
    pub fn new(block: Block, trigger_data: Vec<CosmosTrigger>) -> (res: Self)
        ensures
            res.block == block,
            res.trigger_data == trigger_data,
    {
        BlockWithTriggers { block, trigger_data }
    }
}

/// The context of a transaction with an outcome.
pub open spec fn tx_context(tx: TxResultModel) -> TransactionContextModel {
    TransactionContextModel {
        hash: tx.hash,
        index: tx.index,
        code: tx.result->0.code,
        gas_wanted: tx.result->0.gas_wanted,
        gas_used: tx.result->0.gas_used,
    }
}

/// The messages in the body of a transaction; none without a body.
pub open spec fn tx_messages(tx: TxResultModel) -> Seq<AnyModel> {
    match tx.tx {
        Some(content) => match content.body {
            Some(body) => body.messages,
            None => Seq::empty(),
        },
        None => Seq::empty(),
    }
}

/// The trigger for an event, if the filter wants events of its type.
pub open spec fn filtered_event(
    filter: FilterModel,
    event: EventModel,
    block: HeaderOnlyBlockModel,
    tx_context: Option<TransactionContextModel>,
    origin: EventOrigin,
) -> Option<TriggerModel> {
    if filter.event_types.contains(event.event_type) {
        Some(crate::trigger::event_trigger(event, block, tx_context, origin))
    } else {
        None
    }
}

/// What [`filtered_event`] makes of the events of one origin.
pub open spec fn event_selector(
    filter: FilterModel,
    block: HeaderOnlyBlockModel,
    tx_context: Option<TransactionContextModel>,
    origin: EventOrigin,
) -> spec_fn(EventModel) -> Option<TriggerModel> {
    |event: EventModel| filtered_event(filter, event, block, tx_context, origin)
}

/// The triggers for the wanted ones of a list of events, in the order of the events.
pub open spec fn event_triggers(
    filter: FilterModel,
    events: Seq<EventModel>,
    block: HeaderOnlyBlockModel,
    tx_context: Option<TransactionContextModel>,
    origin: EventOrigin,
) -> Seq<TriggerModel> {
    events.filter_map(event_selector(filter, block, tx_context, origin))
}

/// The triggers for the wanted events of one transaction.
pub open spec fn tx_event_triggers(
    filter: FilterModel,
    tx: TxResultModel,
    block: HeaderOnlyBlockModel,
) -> Seq<TriggerModel> {
    event_triggers(
        filter,
        tx.result->0.events,
        block,
        Some(tx_context(tx)),
        EventOrigin::DeliverTx,
    )
}

/// The triggers for the messages of a transaction, followed by the one for the transaction.
pub open spec fn tx_triggers(tx: TxResultModel, block: HeaderOnlyBlockModel) -> Seq<TriggerModel> {
    tx_messages(tx).map_values(
        |message: AnyModel| crate::trigger::message_trigger(message, block, tx_context(tx)),
    ).push(crate::trigger::transaction_trigger(tx, block))
}

/// The triggers for the wanted events of all transactions, transaction by transaction.
pub open spec fn delivered_triggers(
    filter: FilterModel,
    txs: Seq<TxResultModel>,
    block: HeaderOnlyBlockModel,
) -> Seq<TriggerModel> {
    txs.flat_map(|tx: TxResultModel| tx_event_triggers(filter, tx, block))
}

/// The message and transaction triggers of all transactions, transaction by transaction.
pub open spec fn transaction_triggers(
    txs: Seq<TxResultModel>,
    block: HeaderOnlyBlockModel,
) -> Seq<TriggerModel> {
    txs.flat_map(|tx: TxResultModel| tx_triggers(tx, block))
}

/// All event triggers of a block: those of its beginning, of its transactions, of its end.
pub open spec fn all_event_triggers(filter: FilterModel, block: BlockModel) -> Seq<TriggerModel> {
    event_triggers(filter, block.begin_events(), block.header_only(), None, EventOrigin::BeginBlock)
        + delivered_triggers(filter, block.transactions, block.header_only()) + event_triggers(
        filter,
        block.end_events(),
        block.header_only(),
        None,
        EventOrigin::EndBlock,
    )
}

/// The trigger for the whole block, where every block is wanted.
pub open spec fn whole_block_trigger(filter: FilterModel, block: BlockModel) -> Seq<TriggerModel> {
    if filter.trigger_every_block {
        seq![TriggerModel::Block(block)]
    } else {
        Seq::empty()
    }
}

/// Everything in a block that the filter asks for, in the order in which it is found.
pub open spec fn block_triggers(filter: FilterModel, block: BlockModel) -> Seq<TriggerModel> {
    all_event_triggers(filter, block) + transaction_triggers(
        block.transactions,
        block.header_only(),
    ) + whole_block_trigger(filter, block)
}

impl BlockModel {
    /// The block reports what happened at its beginning and at its end.
    pub open spec fn has_results(self) -> bool {
        self.result_begin_block is Some && self.result_end_block is Some
    }

    /// Every transaction has an outcome.
    pub open spec fn has_tx_results(self) -> bool {
        forall|i: int|
            0 <= i < self.transactions.len() ==> (#[trigger] self.transactions[i]).result is Some
    }
}

/// The context of a transaction, for its events and messages.
pub fn build_tx_context(tx: &TxResult) -> (res: TransactionContext)
    requires
        tx.result is Some,
    ensures
        res.deep_view() == tx_context(tx.deep_view()),
        res.hash@ == tx.hash@,
        res.index == tx.index,
        res.code == tx.result->0.code,
        res.gas_wanted == tx.result->0.gas_wanted,
        res.gas_used == tx.result->0.gas_used,
{
    let result = tx.result.as_ref().unwrap();
    TransactionContext {
        hash: tx.hash.clone(),
        index: tx.index,
        code: result.code,
        gas_wanted: result.gas_wanted,
        gas_used: result.gas_used,
    }
}

/// Returns a new event trigger only if the given event matches the event filter.
pub fn filter_event_trigger(
    filter: &TriggerFilter,
    event: Event,
    block: &HeaderOnlyBlock,
    tx_context: Option<TransactionContext>,
    origin: EventOrigin,
) -> (res: Option<CosmosTrigger>)
    ensures
        res.deep_view() == filtered_event(
            filter.deep_view(),
            event.deep_view(),
            block.deep_view(),
            tx_context.deep_view(),
            origin,
        ),
        match res {
            Some(found) => {
                &&& filter.event_type_filter.event_types@.contains(event.event_type@)
                &&& found is Event
                &&& found->origin == origin
                &&& found->event_data.event == Some(event)
                &&& found->event_data.block is Some
                &&& found->event_data.block->0.deep_view() == block.deep_view()
                &&& found->event_data.tx == tx_context
            },
            None => !filter.event_type_filter.event_types@.contains(event.event_type@),
        },
{
    if filter.event_type_filter.matches(&event.event_type) {
        Some(CosmosTrigger::with_event(event, block.clone(), tx_context, origin))
    } else {
        None
    }
}

/// Appends the triggers for the wanted ones of a list of events.
fn push_event_triggers(
    triggers: &mut Vec<CosmosTrigger>,
    filter: &TriggerFilter,
    events: &Vec<Event>,
    block: &HeaderOnlyBlock,
    tx_context: &Option<TransactionContext>,
    origin: EventOrigin,
)
    ensures
        final(triggers).deep_view() == old(triggers).deep_view() + event_triggers(
            filter.deep_view(),
            events.deep_view(),
            block.deep_view(),
            tx_context.deep_view(),
            origin,
        ),
{
    let ghost before = triggers.deep_view();
    let ghost models = events.deep_view();
    let ghost select = event_selector(
        filter.deep_view(),
        block.deep_view(),
        tx_context.deep_view(),
        origin,
    );
    let mut i: usize = 0;
    while i < events.len()
        invariant
            i <= events.len(),
            models == events.deep_view(),
            select == event_selector(
                filter.deep_view(),
                block.deep_view(),
                tx_context.deep_view(),
                origin,
            ),
            triggers.deep_view() == before + models.take(i as int).filter_map(select),
        decreases events.len() - i,
    {
        let ghost so_far = triggers.deep_view();
        let selected = filter_event_trigger(
            filter,
            events[i].clone(),
            block,
            tx_context.clone(),
            origin,
        );
        proof {
            models.lemma_filter_map_take_succ(select, i as int);
        }
        match selected {
            Some(trigger) => {
                triggers.push(trigger);
                assert(triggers.deep_view() =~= so_far.push(trigger.deep_view()));
            },
            None => {},
        }
        i = i + 1;
    }
    assert(models.take(i as int) =~= models);
}

/// Appends the triggers for the messages of a transaction and for the transaction itself.
fn push_tx_triggers(triggers: &mut Vec<CosmosTrigger>, tx: &TxResult, block: &HeaderOnlyBlock)
    requires
        tx.result is Some,
    ensures
        final(triggers).deep_view() == old(triggers).deep_view() + tx_triggers(
            tx.deep_view(),
            block.deep_view(),
        ),
{
    let ghost before = triggers.deep_view();
    let ghost messages = tx_messages(tx.deep_view());
    let ghost make = |message: AnyModel|
        crate::trigger::message_trigger(message, block.deep_view(), tx_context(tx.deep_view()));
    if let Some(content) = &tx.tx {
        if let Some(body) = &content.body {
            let mut i: usize = 0;
            while i < body.messages.len()
                invariant
                    i <= body.messages.len(),
                    tx.result is Some,
                    messages == body.messages.deep_view(),
                    make == (|message: AnyModel|
                        crate::trigger::message_trigger(
                            message,
                            block.deep_view(),
                            tx_context(tx.deep_view()),
                        )),
                    triggers.deep_view() == before + messages.take(i as int).map_values(make),
                decreases body.messages.len() - i,
            {
                let ghost so_far = triggers.deep_view();
                triggers.push(
                    CosmosTrigger::with_message(
                        body.messages[i].clone(),
                        block.clone(),
                        build_tx_context(tx),
                    ),
                );
                assert(triggers.deep_view() =~= so_far.push(make(messages[i as int])));
                assert(messages.take(i + 1).map_values(make) =~= messages.take(
                    i as int,
                ).map_values(make).push(make(messages[i as int])));
                i = i + 1;
            }
            assert(messages.take(i as int) =~= messages);
        }
    }
    assert(triggers.deep_view() =~= before + messages.map_values(make));
    let ghost so_far = triggers.deep_view();
    triggers.push(CosmosTrigger::with_transaction(tx.clone(), block.clone()));
    assert(triggers.deep_view() =~= so_far.push(
        crate::trigger::transaction_trigger(tx.deep_view(), block.deep_view()),
    ));
}

/// Finds the triggers in blocks.
#[derive(Debug, Clone, Copy)]
pub struct TriggersAdapter {}

impl TriggersAdapter {
    /// Finds everything in a block that the filter asks for.
    ///
    /// A block without a begin-block or end-block result is refused. In any other block each
    /// transaction must have an outcome.
    pub fn triggers_in_block(&self, block: Block, filter: &TriggerFilter) -> (res: Result<
        BlockWithTriggers,
        Error,
    >)
        requires
            block.deep_view().has_results() ==> block.deep_view().has_tx_results(),
        ensures
            match res {
                Ok(found) => {
                    &&& block.deep_view().has_results()
                    &&& found.block == block
                    &&& found.trigger_data.deep_view() == block_triggers(
                        filter.deep_view(),
                        block.deep_view(),
                    )
                },
                Err(err) => {
                    ||| block.result_begin_block is None && err is MissingBeginBlock
                    ||| block.result_begin_block is Some && block.result_end_block is None
                        && err is MissingEndBlock
                },
            },
    {
        let ghost model = block.deep_view();
        let ghost wanted = filter.deep_view();
        let begin_events = match block.begin_block_events() {
            Ok(events) => events,
            Err(err) => return Err(err),
        };
        let end_events = match block.end_block_events() {
            Ok(events) => events,
            Err(err) => return Err(err),
        };
        let header_only_block = HeaderOnlyBlock::from(&block);
        let ghost header = header_only_block.deep_view();
        let txs = block.transactions();
        let mut triggers: Vec<CosmosTrigger> = Vec::new();
        assert(triggers.deep_view() =~= Seq::empty());

        push_event_triggers(
            &mut triggers,
            filter,
            begin_events,
            &header_only_block,
            &None,
            EventOrigin::BeginBlock,
        );

        let ghost before = triggers.deep_view();
        let ghost per_tx = |tx: TxResultModel| tx_event_triggers(wanted, tx, header);
        let mut i: usize = 0;
        assert(model.transactions.take(0).flat_map(per_tx) =~= Seq::empty());
        while i < txs.len()
            invariant
                i <= txs.len(),
                model.has_tx_results(),
                model.transactions == txs.deep_view(),
                wanted == filter.deep_view(),
                header == header_only_block.deep_view(),
                per_tx == (|tx: TxResultModel| tx_event_triggers(wanted, tx, header)),
                triggers.deep_view() == before + model.transactions.take(i as int).flat_map(per_tx),
            decreases txs.len() - i,
        {
            assert(model.transactions[i as int].result is Some);
            let tx = &txs[i];
            let context = Some(build_tx_context(tx));
            push_event_triggers(
                &mut triggers,
                filter,
                &tx.result.as_ref().unwrap().events,
                &header_only_block,
                &context,
                EventOrigin::DeliverTx,
            );
            proof {
                model.transactions.lemma_flat_map_take_append(per_tx, i as int);
            }
            i = i + 1;
        }
        assert(model.transactions.take(i as int) =~= model.transactions);

        push_event_triggers(
            &mut triggers,
            filter,
            end_events,
            &header_only_block,
            &None,
            EventOrigin::EndBlock,
        );
        assert(triggers.deep_view() =~= all_event_triggers(wanted, model));

        let ghost before = triggers.deep_view();
        let ghost per_tx = |tx: TxResultModel| tx_triggers(tx, header);
        let mut i: usize = 0;
        assert(model.transactions.take(0).flat_map(per_tx) =~= Seq::empty());
        while i < txs.len()
            invariant
                i <= txs.len(),
                model.has_tx_results(),
                model.transactions == txs.deep_view(),
                header == header_only_block.deep_view(),
                per_tx == (|tx: TxResultModel| tx_triggers(tx, header)),
                triggers.deep_view() == before + model.transactions.take(i as int).flat_map(per_tx),
            decreases txs.len() - i,
        {
            assert(model.transactions[i as int].result is Some);
            push_tx_triggers(&mut triggers, &txs[i], &header_only_block);
            proof {
                model.transactions.lemma_flat_map_take_append(per_tx, i as int);
            }
            i = i + 1;
        }
        assert(model.transactions.take(i as int) =~= model.transactions);

        let ghost before = triggers.deep_view();
        if filter.block_filter.trigger_every_block {
            triggers.push(CosmosTrigger::Block(Arc::new(block.clone())));
            assert(triggers.deep_view() =~= before.push(TriggerModel::Block(model)));
        }
        assert(triggers.deep_view() =~= block_triggers(wanted, model));
        Ok(BlockWithTriggers::new(block, triggers))
    }

    /// A pointer to the parent of a block that is being reverted.
    ///
    /// The hash of the parent is not known here, and a placeholder stands for it. The genesis
    /// block has no parent and must not be given.
    pub fn parent_ptr(&self, block: &BlockPtr) -> (res: Result<Option<BlockPtr>, Error>)
        requires
            block.number != 0,
        ensures
            res is Ok,
            res->Ok_0 is Some,
            res->Ok_0->0.hash.0@ == Seq::new(32, |i: int| 0xffu8),
            res->Ok_0->0.number == if block.number == i32::MIN {
                i32::MIN as int
            } else {
                block.number - 1
            },
    {
        let number: i32 = if block.number == i32::MIN {
            i32::MIN
        } else {
            block.number - 1
        };
        let hash: Vec<u8> = vec![0xff; 32];
        assert(hash@ =~= Seq::new(32, |i: int| 0xffu8));
        Ok(Some(BlockPtr { hash: BlockHash(hash), number }))
    }
}

} // verus!
