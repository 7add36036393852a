//! What the models of messages, triggers and events say.
//!
//! The contracts of this crate speak of models. A model holds what each field of the modelled
//! value holds, so that nothing of a value is left unsaid.

use crate::adapter::TriggerFilter;
use crate::block::BlockPtr;
use crate::codec::{
    Any, Block, BlockId, Consensus, Event, EventAttribute, EventData, Header, HeaderOnlyBlock,
    MessageData, PartSetHeader, ResponseBeginBlock, ResponseDeliverTx, ResponseEndBlock, Timestamp,
    TransactionContext, TransactionData, Tx, TxBody, TxResult,
};
use crate::firehose::{BlockStreamEvent, Response};
use crate::trigger::CosmosTrigger;
use vstd::prelude::*;

verus! {

/// The model of a [`Any`].
pub proof fn law_view_of_any(value: Any)
    ensures
        value.deep_view().type_url == value.type_url@,
        value.deep_view().value == value.value.deep_view(),
{
}

/// The model of a [`EventAttribute`].
pub proof fn law_view_of_event_attribute(value: EventAttribute)
    ensures
        value.deep_view().key == value.key@,
        value.deep_view().value == value.value@,
        value.deep_view().index == value.index,
{
}

/// The model of a [`Event`].
pub proof fn law_view_of_event(value: Event)
    ensures
        value.deep_view().event_type == value.event_type@,
        value.deep_view().attributes == value.attributes.deep_view(),
{
}

/// The model of a [`Tx`].
pub proof fn law_view_of_tx(value: Tx)
    ensures
        value.deep_view().body == value.body.deep_view(),
        value.deep_view().auth_info == value.auth_info.deep_view(),
        value.deep_view().signatures == value.signatures.deep_view(),
{
}

/// The model of a [`TxBody`].
pub proof fn law_view_of_tx_body(value: TxBody)
    ensures
        value.deep_view().messages == value.messages.deep_view(),
        value.deep_view().memo == value.memo@,
        value.deep_view().timeout_height == value.timeout_height,
        value.deep_view().extension_options == value.extension_options.deep_view(),
        value.deep_view().non_critical_extension_options
            == value.non_critical_extension_options.deep_view(),
{
}

/// The model of a [`ResponseDeliverTx`].
pub proof fn law_view_of_response_deliver_tx(value: ResponseDeliverTx)
    ensures
        value.deep_view().code == value.code,
        value.deep_view().data == value.data.deep_view(),
        value.deep_view().log == value.log@,
        value.deep_view().info == value.info@,
        value.deep_view().gas_wanted == value.gas_wanted,
        value.deep_view().gas_used == value.gas_used,
        value.deep_view().events == value.events.deep_view(),
        value.deep_view().codespace == value.codespace@,
{
}

/// The model of a [`TxResult`].
pub proof fn law_view_of_tx_result(value: TxResult)
    ensures
        value.deep_view().height == value.height,
        value.deep_view().index == value.index,
        value.deep_view().tx == value.tx.deep_view(),
        value.deep_view().result == value.result.deep_view(),
        value.deep_view().hash == value.hash.deep_view(),
{
}

/// The model of a [`ResponseBeginBlock`].
pub proof fn law_view_of_response_begin_block(value: ResponseBeginBlock)
    ensures
        value.deep_view().events == value.events.deep_view(),
{
}

/// The model of a [`ResponseEndBlock`].
pub proof fn law_view_of_response_end_block(value: ResponseEndBlock)
    ensures
        value.deep_view().validator_updates == value.validator_updates.deep_view(),
        value.deep_view().consensus_param_updates == value.consensus_param_updates.deep_view(),
        value.deep_view().events == value.events.deep_view(),
{
}

/// The model of a [`Consensus`].
pub proof fn law_view_of_consensus(value: Consensus)
    ensures
        value.deep_view().block == value.block,
        value.deep_view().app == value.app,
{
}

/// The model of a [`Timestamp`].
pub proof fn law_view_of_timestamp(value: Timestamp)
    ensures
        value.deep_view().seconds == value.seconds,
        value.deep_view().nanos == value.nanos,
{
}

/// The model of a [`PartSetHeader`].
pub proof fn law_view_of_part_set_header(value: PartSetHeader)
    ensures
        value.deep_view().total == value.total,
        value.deep_view().hash == value.hash.deep_view(),
{
}

/// The model of a [`BlockId`].
pub proof fn law_view_of_block_id(value: BlockId)
    ensures
        value.deep_view().hash == value.hash.deep_view(),
        value.deep_view().part_set_header == value.part_set_header.deep_view(),
{
}

/// The model of a [`Header`].
pub proof fn law_view_of_header(value: Header)
    ensures
        value.deep_view().version == value.version.deep_view(),
        value.deep_view().chain_id == value.chain_id@,
        value.deep_view().height == value.height,
        value.deep_view().time == value.time.deep_view(),
        value.deep_view().last_block_id == value.last_block_id.deep_view(),
        value.deep_view().last_commit_hash == value.last_commit_hash.deep_view(),
        value.deep_view().data_hash == value.data_hash.deep_view(),
        value.deep_view().validators_hash == value.validators_hash.deep_view(),
        value.deep_view().next_validators_hash == value.next_validators_hash.deep_view(),
        value.deep_view().consensus_hash == value.consensus_hash.deep_view(),
        value.deep_view().app_hash == value.app_hash.deep_view(),
        value.deep_view().last_results_hash == value.last_results_hash.deep_view(),
        value.deep_view().evidence_hash == value.evidence_hash.deep_view(),
        value.deep_view().proposer_address == value.proposer_address.deep_view(),
        value.deep_view().hash == value.hash.deep_view(),
{
}

/// The model of a [`Block`].
pub proof fn law_view_of_block(value: Block)
    ensures
        value.deep_view().header == value.header.deep_view(),
        value.deep_view().evidence == value.evidence.deep_view(),
        value.deep_view().last_commit == value.last_commit.deep_view(),
        value.deep_view().result_begin_block == value.result_begin_block.deep_view(),
        value.deep_view().result_end_block == value.result_end_block.deep_view(),
        value.deep_view().transactions == value.transactions.deep_view(),
        value.deep_view().validator_updates == value.validator_updates.deep_view(),
{
}

/// The model of a [`HeaderOnlyBlock`].
pub proof fn law_view_of_header_only_block(value: HeaderOnlyBlock)
    ensures
        value.deep_view().header == value.header.deep_view(),
{
}

/// The model of a [`TransactionContext`].
pub proof fn law_view_of_transaction_context(value: TransactionContext)
    ensures
        value.deep_view().hash == value.hash.deep_view(),
        value.deep_view().index == value.index,
        value.deep_view().code == value.code,
        value.deep_view().gas_wanted == value.gas_wanted,
        value.deep_view().gas_used == value.gas_used,
{
}

/// The model of a [`EventData`].
pub proof fn law_view_of_event_data(value: EventData)
    ensures
        value.deep_view().event == value.event.deep_view(),
        value.deep_view().block == value.block.deep_view(),
        value.deep_view().tx == value.tx.deep_view(),
{
}

/// The model of a [`TransactionData`].
pub proof fn law_view_of_transaction_data(value: TransactionData)
    ensures
        value.deep_view().tx == value.tx.deep_view(),
        value.deep_view().block == value.block.deep_view(),
{
}

/// The model of a [`MessageData`].
pub proof fn law_view_of_message_data(value: MessageData)
    ensures
        value.deep_view().message == value.message.deep_view(),
        value.deep_view().block == value.block.deep_view(),
        value.deep_view().tx == value.tx.deep_view(),
{
}

/// The model of a [`BlockPtr`].
pub proof fn law_view_of_block_ptr(value: BlockPtr)
    ensures
        value.deep_view().hash == value.hash.0@,
        value.deep_view().number == value.number,
{
    assert(value.hash.0.deep_view() =~= value.hash.0@);
}

/// The model of a [`TriggerFilter`].
pub proof fn law_view_of_filter(value: TriggerFilter)
    ensures
        value.deep_view().event_types == value.event_type_filter.event_types@,
        value.deep_view().trigger_every_block == value.block_filter.trigger_every_block,
{
}

/// The model of a [`CosmosTrigger`].
pub proof fn law_view_of_trigger(value: CosmosTrigger)
    ensures
        value matches CosmosTrigger::Block(block) ==> value.deep_view() is Block
            && value.deep_view()->Block_0 == block.deep_view(),
        value matches CosmosTrigger::Event { event_data, origin } ==> value.deep_view() is Event
            && value.deep_view()->event_data == event_data.deep_view()
            && value.deep_view()->origin == origin,
        value matches CosmosTrigger::Transaction(data) ==> value.deep_view() is Transaction
            && value.deep_view()->Transaction_0 == data.deep_view(),
        value matches CosmosTrigger::Message(data) ==> value.deep_view() is Message
            && value.deep_view()->Message_0 == data.deep_view(),
{
}

/// The model of a [`Response`].
pub proof fn law_view_of_response(value: Response)
    ensures
        value.deep_view().block == value.block.deep_view(),
        value.deep_view().step == value.step,
        value.deep_view().cursor == value.cursor@,
{
}

/// The model of a [`BlockStreamEvent`].
pub proof fn law_view_of_event_in_stream(value: BlockStreamEvent)
    ensures
        value matches BlockStreamEvent::ProcessBlock(found, cursor) ==> value.deep_view()
            is ProcessBlock && value.deep_view()->block == found.block.deep_view()
            && value.deep_view()->triggers == found.trigger_data.deep_view()
            && value.deep_view()->ProcessBlock_cursor == cursor.0@,
        value matches BlockStreamEvent::Revert(parent, cursor) ==> value.deep_view() is Revert
            && value.deep_view()->parent == parent.deep_view()
            && value.deep_view()->Revert_cursor == cursor.0@,
{
}

} // verus!
