//! The triggers that the handlers of a subgraph run on.

use crate::codec::{
    Any, AnyModel, Block, BlockModel, Event, EventData, EventDataModel, EventModel,
    HeaderOnlyBlock, HeaderOnlyBlockModel, MessageData, MessageDataModel, TransactionContext,
    TransactionContextModel, TransactionData, TransactionDataModel, TxResult, TxResultModel,
};
use std::sync::Arc;
use vstd::prelude::*;

verus! {

/// The phase of block execution that emitted an event.
#[derive(Debug, Clone, Copy, PartialEq, Eq, PartialOrd, Ord, Structural)]
pub enum EventOrigin {
    BeginBlock,
    DeliverTx,
    EndBlock,
}

/// Something in a block that a handler can run on.
#[derive(Debug, PartialEq, Eq, PartialOrd, Ord)]
pub enum CosmosTrigger {
    Block(Arc<Block>),
    Event { event_data: Arc<EventData>, origin: EventOrigin },
    Transaction(Arc<TransactionData>),
    Message(Arc<MessageData>),
}

/// Model of [`CosmosTrigger`].
#[verifier::ext_equal]
pub enum TriggerModel {
    Block(BlockModel),
    Event { event_data: EventDataModel, origin: EventOrigin },
    Transaction(TransactionDataModel),
    Message(MessageDataModel),
}

impl DeepView for CosmosTrigger {
    type V = TriggerModel;

    open spec fn deep_view(&self) -> TriggerModel {
        match *self {
            CosmosTrigger::Block(block) => TriggerModel::Block(block.deep_view()),
            CosmosTrigger::Event { event_data, origin } => TriggerModel::Event {
                event_data: event_data.deep_view(),
                origin,
            },
            CosmosTrigger::Transaction(data) => TriggerModel::Transaction(data.deep_view()),
            CosmosTrigger::Message(data) => TriggerModel::Message(data.deep_view()),
        }
    }
}

/// The trigger for an event.
pub open spec fn event_trigger(
    event: EventModel,
    block: HeaderOnlyBlockModel,
    tx_context: Option<TransactionContextModel>,
    origin: EventOrigin,
) -> TriggerModel {
    TriggerModel::Event {
        event_data: EventDataModel { event: Some(event), block: Some(block), tx: tx_context },
        origin,
    }
}

/// The trigger for a transaction.
pub open spec fn transaction_trigger(
    tx: TxResultModel,
    block: HeaderOnlyBlockModel,
) -> TriggerModel {
    TriggerModel::Transaction(TransactionDataModel { tx: Some(tx), block: Some(block) })
}

/// The trigger for a message of a transaction.
pub open spec fn message_trigger(
    message: AnyModel,
    block: HeaderOnlyBlockModel,
    tx_context: TransactionContextModel,
) -> TriggerModel {
    TriggerModel::Message(
        MessageDataModel { message: Some(message), block: Some(block), tx: Some(tx_context) },
    )
}

impl CosmosTrigger {
    /// A trigger for an event.
    pub fn with_event(
        event: Event,
        block: HeaderOnlyBlock,
        tx_context: Option<TransactionContext>,
        origin: EventOrigin,
    ) -> (res: CosmosTrigger)
        ensures
            res.deep_view() == event_trigger(
                event.deep_view(),
                block.deep_view(),
                tx_context.deep_view(),
                origin,
            ),
            res matches CosmosTrigger::Event { event_data, origin: from } && {
                &&& event_data.event == Some(event)
                &&& event_data.block == Some(block)
                &&& event_data.tx == tx_context
                &&& from == origin
            },
    {
        CosmosTrigger::Event {
            event_data: Arc::new(
                EventData { event: Some(event), block: Some(block), tx: tx_context },
            ),
            origin,
        }
    }

    /// A trigger for a transaction.
    pub fn with_transaction(tx_result: TxResult, block: HeaderOnlyBlock) -> (res: CosmosTrigger)
        ensures
            res.deep_view() == transaction_trigger(tx_result.deep_view(), block.deep_view()),
            res matches CosmosTrigger::Transaction(data) && {
                &&& data.tx == Some(tx_result)
                &&& data.block == Some(block)
            },
    {
        CosmosTrigger::Transaction(
            Arc::new(TransactionData { tx: Some(tx_result), block: Some(block) }),
        )
    }

    /// A trigger for a message of a transaction.
    pub fn with_message(
        message: Any,
        block: HeaderOnlyBlock,
        tx_context: TransactionContext,
    ) -> (res: CosmosTrigger)
        ensures
            res.deep_view() == message_trigger(
                message.deep_view(),
                block.deep_view(),
                tx_context.deep_view(),
            ),
            res matches CosmosTrigger::Message(data) && {
                &&& data.message == Some(message)
                &&& data.block == Some(block)
                &&& data.tx == Some(tx_context)
            },
    {
        CosmosTrigger::Message(
            Arc::new(
                MessageData { message: Some(message), block: Some(block), tx: Some(tx_context) },
            ),
        )
    }
}

} // verus!
