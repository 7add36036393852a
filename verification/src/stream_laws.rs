//! What becomes of the responses of a firehose, call by call.
//!
//! The laws speak of what a call gave and of what it was handed, field by field. What a payload
//! holds is what decoding it gives.

use crate::block::BlockPtr;
use crate::codec::{Block, Header};
use crate::error::Error;
use crate::firehose::{
    BlockStreamEvent, Fault, FirehoseCursor, FirehoseError, FirehoseMapper, ForkStep, Response,
};
use crate::triggers::{BlockWithTriggers, TriggersAdapter};
use prost::DecodeError;
use vstd::prelude::*;

verus! {

/// Decoding the payload of a response gives a block.
pub open spec fn holds_block(response: &Response, payload: &[u8], block: Block) -> bool {
    &&& response.block is Some
    &&& payload@ == response.block->0.value@
    &&& call_ensures(Block::decode, (payload,), Ok::<Block, DecodeError>(block))
}

/// Decoding the payload of a response fails.
pub open spec fn holds_no_block(response: &Response, payload: &[u8], err: DecodeError) -> bool {
    &&& response.block is Some
    &&& payload@ == response.block->0.value@
    &&& call_ensures(Block::decode, (payload,), Err::<Block, DecodeError>(err))
}

/// The response was looked at, and this is the fault that was found, if any.
pub open spec fn fault_found(
    mapper: &FirehoseMapper,
    response: &Response,
    fault: Option<Fault>,
) -> bool {
    ||| call_ensures(FirehoseMapper::find_fault, (mapper, response), fault)
    ||| exists|res: Result<Result<BlockStreamEvent, FirehoseError>, Fault>|
        {
            &&& #[trigger] call_ensures(
                FirehoseMapper::checked_block_stream_event,
                (mapper, response),
                res,
            )
            &&& fault == match res {
                Ok(_) => None,
                Err(fault) => Some(fault),
            }
        }
}

/// The response was turned into an event or an error.
pub open spec fn turned_into(
    mapper: &FirehoseMapper,
    response: &Response,
    event: Result<BlockStreamEvent, FirehoseError>,
) -> bool {
    ||| call_ensures(FirehoseMapper::to_block_stream_event, (mapper, response), event)
    ||| call_ensures(
        FirehoseMapper::checked_block_stream_event,
        (mapper, response),
        Ok::<Result<BlockStreamEvent, FirehoseError>, Fault>(event),
    )
}

proof fn lemma_payload(response: &Response)
    ensures
        response.block is Some ==> response.deep_view().block is Some
            && response.deep_view().block->0.value == response.block->0.value@,
{
    if response.block is Some {
        assert(response.block->0.value.deep_view() =~= response.block->0.value@);
    }
}

/// A new block whose transactions all have an outcome is no fault.
pub proof fn law_good_new_block(
    mapper: &FirehoseMapper,
    response: &Response,
    payload: &[u8],
    block: Block,
    fault: Option<Fault>,
)
    requires
        response.step == 1,
        holds_block(response, payload, block),
        forall|i: int|
            0 <= i < block.transactions@.len() ==> (#[trigger] block.transactions@[i]).result
                is Some,
        fault_found(mapper, response, fault),
    ensures
        fault is None,
{
    lemma_payload(response);
    let model = block.deep_view();
    assert forall|i: int| 0 <= i < model.transactions.len() implies (
    #[trigger] model.transactions[i]).result is Some by {
        assert(block.transactions@[i].result is Some);
    }
}

/// A new block without a begin-block or an end-block result is an error and no fault, whatever
/// its transactions are.
pub proof fn law_new_block_without_results(
    mapper: &FirehoseMapper,
    response: &Response,
    payload: &[u8],
    block: Block,
    fault: Option<Fault>,
    event: Result<BlockStreamEvent, FirehoseError>,
)
    requires
        response.step == 1,
        holds_block(response, payload, block),
        block.result_begin_block is None || block.result_end_block is None,
        fault_found(mapper, response, fault),
        turned_into(mapper, response, event),
    ensures
        fault is None,
        match event {
            Err(FirehoseError(Error::MissingBeginBlock)) => block.result_begin_block is None,
            Err(FirehoseError(Error::MissingEndBlock)) => block.result_begin_block is Some,
            _ => false,
        },
{
    lemma_payload(response);
}

/// An undone block with a header that names a parent, and with a height from one to one above
/// the highest block number, is no fault.
pub proof fn law_good_undone_block(
    mapper: &FirehoseMapper,
    response: &Response,
    payload: &[u8],
    block: Block,
    header: Header,
    fault: Option<Fault>,
)
    requires
        response.step == 2,
        holds_block(response, payload, block),
        block.header == Some(header),
        header.last_block_id is Some,
        1 <= header.height <= 0x8000_0000,
        fault_found(mapper, response, fault),
    ensures
        fault is None,
{
    lemma_payload(response);
}

/// A payload that is not an encoded block is no fault but an error.
pub proof fn law_bad_payload_is_an_error(
    mapper: &FirehoseMapper,
    response: &Response,
    payload: &[u8],
    err: DecodeError,
    fault: Option<Fault>,
    event: Result<BlockStreamEvent, FirehoseError>,
)
    requires
        0 <= response.step <= 3,
        holds_no_block(response, payload, err),
        fault_found(mapper, response, fault),
        turned_into(mapper, response, event),
    ensures
        fault is None,
        event matches Err(reported) && reported.0 is Decode,
{
    lemma_payload(response);
}

/// Every fault has its reason: the step does not exist, there is no payload, or it holds a block
/// that is final, comes without a step, lacks the outcome of a transaction, or is to be undone
/// though it has no parent or none with a block number.
pub proof fn law_faults_have_reasons(
    mapper: &FirehoseMapper,
    response: &Response,
    payload: &[u8],
    block: Block,
    fault: Fault,
)
    requires
        fault_found(mapper, response, Some(fault)),
        response.block is Some && 0 <= response.step <= 3 ==> holds_block(
            response,
            payload,
            block,
        ),
    ensures
        match fault {
            Fault::UnknownStep(step) => step == response.step && !(0 <= step <= 3),
            Fault::MissingPayload => response.block is None && 0 <= response.step <= 3,
            Fault::UnsetStep => response.step == 0,
            Fault::FinalStep => response.step == 3,
            Fault::MissingTxResult => {
                &&& response.step == 1
                &&& exists|i: int|
                    0 <= i < block.transactions@.len() && (
                    #[trigger] block.transactions@[i]).result is None
            },
            Fault::GenesisReverted => {
                &&& response.step == 2
                &&& block.header is Some
                &&& block.header->0.last_block_id is None
            },
            Fault::ParentOutOfRange => {
                &&& response.step == 2
                &&& block.header is Some
                &&& block.header->0.height == 0 || block.header->0.height > 0x8000_0000
            },
        },
{
    lemma_payload(response);
    if fault == Fault::MissingTxResult {
        let model = block.deep_view();
        let i = choose|i: int|
            0 <= i < model.transactions.len() && (#[trigger] model.transactions[i]).result is None;
        assert(block.transactions@[i].result is None);
    }
}

/// A response with a step that does not exist, or without a payload, is a fault.
pub proof fn law_broken_responses(
    mapper: &FirehoseMapper,
    response: &Response,
    fault: Option<Fault>,
)
    requires
        fault_found(mapper, response, fault),
    ensures
        !(0 <= response.step <= 3) ==> fault == Some(Fault::UnknownStep(response.step)),
        0 <= response.step <= 3 && response.block is None ==> fault == Some(Fault::MissingPayload),
{
}

/// A block that is final, or that comes without a step, is a fault.
pub proof fn law_unhandled_steps(
    mapper: &FirehoseMapper,
    response: &Response,
    payload: &[u8],
    block: Block,
    fault: Option<Fault>,
)
    requires
        holds_block(response, payload, block),
        fault_found(mapper, response, fault),
    ensures
        response.step == 0 ==> fault == Some(Fault::UnsetStep),
        response.step == 3 ==> fault == Some(Fault::FinalStep),
{
    lemma_payload(response);
}

/// A new block with results for its beginning and its end is a fault if one of its transactions
/// has no outcome.
pub proof fn law_missing_outcome(
    mapper: &FirehoseMapper,
    response: &Response,
    payload: &[u8],
    block: Block,
    i: int,
    fault: Option<Fault>,
)
    requires
        response.step == 1,
        holds_block(response, payload, block),
        block.result_begin_block is Some,
        block.result_end_block is Some,
        0 <= i < block.transactions@.len(),
        block.transactions@[i].result is None,
        fault_found(mapper, response, fault),
    ensures
        fault == Some(Fault::MissingTxResult),
{
    lemma_payload(response);
    assert(block.deep_view().transactions[i].result is None);
}

/// Undoing a block without a parent is a fault, and so is undoing one whose parent has no block
/// number.
pub proof fn law_no_way_back(
    mapper: &FirehoseMapper,
    response: &Response,
    payload: &[u8],
    block: Block,
    fault: Option<Fault>,
)
    requires
        response.step == 2,
        holds_block(response, payload, block),
        block.header is Some,
        fault_found(mapper, response, fault),
    ensures
        block.header->0.last_block_id is None ==> fault == Some(Fault::GenesisReverted),
        block.header->0.last_block_id is Some && (block.header->0.height == 0
            || block.header->0.height > 0x8000_0000) ==> fault == Some(Fault::ParentOutOfRange),
{
    lemma_payload(response);
}

/// A new block is processed: the event holds the block of the payload, the cursor of the
/// response, and the triggers that the adapter finds in that block for the filter of the mapper.
pub proof fn law_new_block_is_processed(
    mapper: &FirehoseMapper,
    response: &Response,
    payload: &[u8],
    block: Block,
    adapter: &TriggersAdapter,
    expected: BlockWithTriggers,
    event: Result<BlockStreamEvent, FirehoseError>,
)
    requires
        response.step == 1,
        holds_block(response, payload, block),
        block.result_begin_block is Some,
        block.result_end_block is Some,
        call_ensures(
            TriggersAdapter::triggers_in_block,
            (adapter, block, &*mapper.filter),
            Ok::<BlockWithTriggers, Error>(expected),
        ),
        turned_into(mapper, response, event),
    ensures
        match event {
            Ok(BlockStreamEvent::ProcessBlock(found, cursor)) => {
                &&& found.block.deep_view() == block.deep_view()
                &&& found.trigger_data.deep_view() == expected.trigger_data.deep_view()
                &&& cursor.0@ == response.cursor@
            },
            _ => false,
        },
{
    lemma_payload(response);
}

/// An undone block is reverted: the event holds the hash of the parent that the header names, the
/// number one below the height, and the cursor of the response.
pub proof fn law_undone_block_is_reverted(
    mapper: &FirehoseMapper,
    response: &Response,
    payload: &[u8],
    block: Block,
    header: Header,
    event: Result<BlockStreamEvent, FirehoseError>,
)
    requires
        response.step == 2,
        holds_block(response, payload, block),
        block.header == Some(header),
        header.last_block_id is Some,
        1 <= header.height <= 0x8000_0000,
        turned_into(mapper, response, event),
    ensures
        match event {
            Ok(BlockStreamEvent::Revert(parent, cursor)) => {
                &&& parent.hash.0@ == header.last_block_id->0.hash@
                &&& parent.number + 1 == header.height
                &&& cursor.0@ == response.cursor@
            },
            _ => false,
        },
{
    lemma_payload(response);
    if let Ok(BlockStreamEvent::Revert(parent, _)) = event {
        assert(parent.hash.0.deep_view() =~= parent.hash.0@);
        assert(header.last_block_id->0.hash.deep_view() =~= header.last_block_id->0.hash@);
    }
}

/// A block without a header cannot be undone.
pub proof fn law_undone_block_without_header(
    mapper: &FirehoseMapper,
    response: &Response,
    payload: &[u8],
    block: Block,
    fault: Option<Fault>,
    event: Result<BlockStreamEvent, FirehoseError>,
)
    requires
        response.step == 2,
        holds_block(response, payload, block),
        block.header is None,
        fault_found(mapper, response, fault),
        turned_into(mapper, response, event),
    ensures
        fault is None,
        event matches Err(reported) && reported.0 is MissingHeader,
{
    lemma_payload(response);
}

/// A response in which no fault is found can be turned into an event.
pub proof fn law_responses_without_fault(mapper: &FirehoseMapper, response: &Response)
    requires
        fault_found(mapper, response, None),
    ensures
        call_requires(FirehoseMapper::to_block_stream_event, (mapper, response)),
{
}

/// Looking for a fault and checking a response find the same.
pub proof fn law_faults_agree(
    first: &FirehoseMapper,
    second: &FirehoseMapper,
    response: &Response,
    first_fault: Option<Fault>,
    second_fault: Option<Fault>,
)
    requires
        fault_found(first, response, first_fault),
        fault_found(second, response, second_fault),
    ensures
        first_fault == second_fault,
{
}

/// The numbers of the steps.
pub proof fn law_steps(value: i32, res: Option<ForkStep>)
    requires
        call_ensures(ForkStep::from_i32, (value,), res),
    ensures
        res is Some <==> 0 <= value <= 3,
        res == Some(ForkStep::StepUnset) <==> value == 0,
        res == Some(ForkStep::StepNew) <==> value == 1,
        res == Some(ForkStep::StepUndo) <==> value == 2,
        res == Some(ForkStep::StepFinal) <==> value == 3,
{
}

/// Decoding a payload with a mapper is decoding it as a block. There has to be a payload.
pub proof fn law_decode_block(
    mapper: &FirehoseMapper,
    output: Option<&[u8]>,
    res: Result<Option<Block>, Error>,
    payload: &[u8],
    decoded: Result<Block, DecodeError>,
)
    requires
        call_ensures(FirehoseMapper::decode_block, (mapper, output), res),
        call_ensures(Block::decode, (payload,), decoded),
        output is Some ==> output->0@ == payload@,
    ensures
        match (output, decoded, res) {
            (None, _, Err(err)) => err is MissingBlock,
            (Some(_), Ok(expected), Ok(Some(block))) => block.deep_view() == expected.deep_view(),
            (Some(_), Err(_), Err(err)) => err is Decode,
            _ => false,
        },
{
}

/// What the mapper finds in a block is what the adapter finds in it for the filter of the mapper.
pub proof fn law_block_with_triggers(
    mapper: &FirehoseMapper,
    adapter: &TriggersAdapter,
    block: Block,
    res: Result<BlockWithTriggers, Error>,
    expected: Result<BlockWithTriggers, Error>,
)
    requires
        call_ensures(FirehoseMapper::block_with_triggers, (mapper, block), res),
        call_ensures(
            TriggersAdapter::triggers_in_block,
            (adapter, block, &*mapper.filter),
            expected,
        ),
    ensures
        match (res, expected) {
            (Ok(found), Ok(other)) => found.block == block && found.trigger_data.deep_view()
                == other.trigger_data.deep_view(),
            (Err(Error::MissingBeginBlock), Err(Error::MissingBeginBlock)) => true,
            (Err(Error::MissingEndBlock), Err(Error::MissingEndBlock)) => true,
            _ => false,
        },
{
}

/// The event for a new block holds the block, what is found in it, and the cursor.
pub proof fn law_event_for_new_block(
    mapper: &FirehoseMapper,
    block: Block,
    cursor: FirehoseCursor,
    adapter: &TriggersAdapter,
    expected: Result<BlockWithTriggers, Error>,
    res: Result<BlockStreamEvent, FirehoseError>,
)
    requires
        call_ensures(
            FirehoseMapper::to_block_event,
            (mapper, ForkStep::StepNew, block, cursor),
            res,
        ),
        call_ensures(
            TriggersAdapter::triggers_in_block,
            (adapter, block, &*mapper.filter),
            expected,
        ),
    ensures
        match (res, expected) {
            (Ok(BlockStreamEvent::ProcessBlock(found, position)), Ok(other)) => {
                &&& found.block.deep_view() == block.deep_view()
                &&& found.trigger_data.deep_view() == other.trigger_data.deep_view()
                &&& position.0@ == cursor.0@
            },
            (Err(FirehoseError(Error::MissingBeginBlock)), Err(Error::MissingBeginBlock)) => true,
            (Err(FirehoseError(Error::MissingEndBlock)), Err(Error::MissingEndBlock)) => true,
            _ => false,
        },
{
}

/// The event for an undone block holds the hash of the parent that the header names, the number
/// one below the height, and the cursor.
pub proof fn law_event_for_undone_block(
    mapper: &FirehoseMapper,
    block: Block,
    cursor: FirehoseCursor,
    res: Result<BlockStreamEvent, FirehoseError>,
)
    requires
        block.header is Some ==> block.header->0.last_block_id is Some,
        call_ensures(
            FirehoseMapper::to_block_event,
            (mapper, ForkStep::StepUndo, block, cursor),
            res,
        ),
    ensures
        match res {
            Ok(BlockStreamEvent::Revert(parent, position)) => {
                &&& block.header is Some
                &&& parent.hash.0@ == block.header->0.last_block_id->0.hash@
                &&& parent.number + 1 == block.header->0.height
                &&& position.0@ == cursor.0@
            },
            Err(FirehoseError(Error::MissingHeader)) => block.header is None,
            _ => false,
        },
{
    if let Ok(BlockStreamEvent::Revert(parent, _)) = res {
        assert(parent.hash.0.deep_view() =~= parent.hash.0@);
        if block.header is Some {
            let id = block.header->0.last_block_id->0;
            assert(id.hash.deep_view() =~= id.hash@);
        }
    }
}

/// What is wrong with a block depends on the step: a new one with results for its beginning and
/// its end needs an outcome for each transaction, an undone one with a header needs a parent with
/// a block number, and other steps are wrong in themselves.
pub proof fn law_block_faults(step: ForkStep, block: &Block, res: Option<Fault>)
    requires
        call_ensures(FirehoseMapper::find_block_fault, (step, block), res),
    ensures
        step == ForkStep::StepFinal ==> res == Some(Fault::FinalStep),
        step == ForkStep::StepUnset ==> res == Some(Fault::UnsetStep),
        step == ForkStep::StepNew ==> {
            &&& res is None || res == Some(Fault::MissingTxResult)
            &&& res is Some <==> {
                &&& block.result_begin_block is Some
                &&& block.result_end_block is Some
                &&& exists|i: int|
                    0 <= i < block.transactions@.len() && (
                    #[trigger] block.transactions@[i]).result is None
            }
        },
        step == ForkStep::StepUndo ==> match res {
            None => block.header is Some ==> block.header->0.last_block_id is Some && 1
                <= block.header->0.height <= 0x8000_0000,
            Some(Fault::GenesisReverted) => block.header is Some
                && block.header->0.last_block_id is None,
            Some(Fault::ParentOutOfRange) => block.header is Some
                && block.header->0.last_block_id is Some && !(1 <= block.header->0.height
                <= 0x8000_0000),
            Some(_) => false,
        },
{
    if step == ForkStep::StepNew {
        let model = block.deep_view();
        assert forall|i: int| 0 <= i < block.transactions@.len() implies (
        #[trigger] block.transactions@[i]).result is None <==> model.transactions[i].result
            is None by {}
        if res is Some {
            let i = choose|i: int|
                0 <= i < model.transactions.len() && (
                #[trigger] model.transactions[i]).result is None;
            assert(block.transactions@[i].result is None);
        }
    }
}

/// The parent of a block is known exactly if its header names one. It has the hash that the
/// header names and the number one below the height.
pub proof fn law_parent_of_a_block(block: &Block, res: Result<Option<BlockPtr>, Error>)
    requires
        call_ensures(Block::parent_ptr, (block,), res),
    ensures
        match res {
            Ok(Some(parent)) => {
                &&& block.header is Some
                &&& block.header->0.last_block_id is Some
                &&& parent.hash.0@ == block.header->0.last_block_id->0.hash@
                &&& parent.number + 1 == block.header->0.height
            },
            Ok(None) => block.header is Some && block.header->0.last_block_id is None,
            Err(err) => block.header is None && err is MissingHeader,
        },
{
}

/// The number and the parent of a block can be asked for wherever they are block numbers.
pub proof fn law_numbers_that_can_be_asked_for(
    mapper: &FirehoseMapper,
    block: &Block,
    adapter: &TriggersAdapter,
    ptr: &BlockPtr,
)
    ensures
        block.header is Some && block.header->0.height <= 0x7fff_ffff ==> call_requires(
            Block::number,
            (block,),
        ) && call_requires(FirehoseMapper::final_block_number_for, (mapper, block)),
        (block.header is Some && block.header->0.last_block_id is Some ==> 1
            <= block.header->0.height <= 0x8000_0000) ==> call_requires(
            Block::parent_ptr,
            (block,),
        ),
        ptr.number != 0 ==> call_requires(TriggersAdapter::parent_ptr, (adapter, ptr)),
{
}

/// The number of a block is the height in its header, and instant finality makes it the number
/// of the final block too.
pub proof fn law_number(mapper: &FirehoseMapper, block: &Block, number: i32, last: i32)
    requires
        call_ensures(Block::number, (block,), number),
        call_ensures(FirehoseMapper::final_block_number_for, (mapper, block), last),
    ensures
        number == block.header->0.height,
        last == number,
{
}

/// The parent of a pointer has the number one below and a placeholder for its hash.
pub proof fn law_parent_of_a_pointer(
    adapter: &TriggersAdapter,
    ptr: &BlockPtr,
    res: Result<Option<BlockPtr>, Error>,
)
    requires
        ptr.number != i32::MIN,
        call_ensures(TriggersAdapter::parent_ptr, (adapter, ptr), res),
    ensures
        res is Ok,
        res->Ok_0 is Some,
        res->Ok_0->0.number + 1 == ptr.number,
        res->Ok_0->0.hash.0@.len() == 32,
        forall|i: int| 0 <= i < 32 ==> #[trigger] res->Ok_0->0.hash.0@[i] == 0xff,
{
}

/// A block in which no fault is found for a step can be turned into an event, and triggers can be
/// looked for in it if it is new.
pub proof fn law_blocks_without_fault(
    mapper: &FirehoseMapper,
    step: ForkStep,
    block: Block,
    cursor: FirehoseCursor,
)
    requires
        call_ensures(FirehoseMapper::find_block_fault, (step, &block), None),
    ensures
        call_requires(FirehoseMapper::to_block_event, (mapper, step, block, cursor)),
        step == ForkStep::StepNew ==> call_requires(
            FirehoseMapper::block_with_triggers,
            (mapper, block),
        ),
{
}

/// Any response can be checked, any bytes can be decoded, and any block can be looked at.
pub proof fn law_calls_without_conditions(
    mapper: &FirehoseMapper,
    response: &Response,
    output: Option<&[u8]>,
    bytes: &[u8],
    step: ForkStep,
    block: &Block,
    value: i32,
)
    ensures
        call_requires(FirehoseMapper::checked_block_stream_event, (mapper, response)),
        call_requires(FirehoseMapper::find_fault, (mapper, response)),
        call_requires(FirehoseMapper::find_block_fault, (step, block)),
        call_requires(FirehoseMapper::decode_block, (mapper, output)),
        call_requires(FirehoseMapper::trigger_filter, (mapper,)),
        call_requires(ForkStep::from_i32, (value,)),
        call_requires(Block::decode, (bytes,)),
        call_requires(Block::header, (block,)),
        call_requires(Block::begin_block_events, (block,)),
        call_requires(Block::end_block_events, (block,)),
        call_requires(Block::transactions, (block,)),
{
}

} // verus!
