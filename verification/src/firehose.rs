//! Events of a block stream from the responses of a firehose.

use crate::adapter::{FilterModel, TriggerFilter};
use crate::block::{BlockPtr, BlockPtrModel};
use crate::codec::{Any, AnyModel, Block, BlockModel};
use crate::error::{Error, ErrorModel};
use crate::trigger::TriggerModel;
use crate::triggers::{BlockWithTriggers, TriggersAdapter};
use crate::{decode, triggers};
use prost::DecodeError;
use std::sync::Arc;
use vstd::prelude::*;

verus! {

/// What a firehose response says about its block.
#[derive(Debug, Clone, Copy, PartialEq, Eq, Structural)]
pub enum ForkStep {
    StepUnset,
    StepNew,
    StepUndo,
    StepFinal,
}

/// The step that a number on the wire stands for.
pub open spec fn fork_step(value: i32) -> Option<ForkStep> {
    if value == 0 {
        Some(ForkStep::StepUnset)
    } else if value == 1 {
        Some(ForkStep::StepNew)
    } else if value == 2 {
        Some(ForkStep::StepUndo)
    } else if value == 3 {
        Some(ForkStep::StepFinal)
    } else {
        None
    }
}

impl ForkStep {
    /// The step that a number on the wire stands for.
    pub fn from_i32(value: i32) -> (res: Option<ForkStep>)
        ensures
            res == fork_step(value),
    {
        match value {
            0 => Some(ForkStep::StepUnset),
            1 => Some(ForkStep::StepNew),
            2 => Some(ForkStep::StepUndo),
            3 => Some(ForkStep::StepFinal),
            _ => None,
        }
    }
}

/// A response of a firehose.
#[derive(Debug)]
pub struct Response {
    pub block: Option<Any>,
    pub step: i32,
    pub cursor: String,
}

/// Model of [`Response`].
#[verifier::ext_equal]
pub struct ResponseModel {
    pub block: Option<AnyModel>,
    pub step: i32,
    pub cursor: Seq<char>,
}

impl DeepView for Response {
    type V = ResponseModel;

    open spec fn deep_view(&self) -> ResponseModel {
        ResponseModel {
            block: self.block.deep_view(),
            step: self.step,
            cursor: self.cursor@,
        }
    }
}

/// A position in the stream of a firehose.
#[derive(Debug, PartialEq, Eq)]
pub struct FirehoseCursor(pub String);

/// Something that happened in a block stream.
#[derive(Debug)]
pub enum BlockStreamEvent {
    /// A block was appended to the chain.
    ProcessBlock(BlockWithTriggers, FirehoseCursor),
    /// The chain was reverted to a block.
    Revert(BlockPtr, FirehoseCursor),
}

/// Model of [`BlockStreamEvent`].
#[verifier::ext_equal]
pub enum StreamEventModel {
    ProcessBlock { block: BlockModel, triggers: Seq<TriggerModel>, cursor: Seq<char> },
    Revert { parent: BlockPtrModel, cursor: Seq<char> },
}

impl DeepView for BlockStreamEvent {
    type V = StreamEventModel;

    open spec fn deep_view(&self) -> StreamEventModel {
        match *self {
            BlockStreamEvent::ProcessBlock(found, cursor) => StreamEventModel::ProcessBlock {
                block: found.block.deep_view(),
                triggers: found.trigger_data.deep_view(),
                cursor: cursor.0@,
            },
            BlockStreamEvent::Revert(parent, cursor) => StreamEventModel::Revert {
                parent: parent.deep_view(),
                cursor: cursor.0@,
            },
        }
    }
}

/// Why a firehose response could not be turned into an event.
#[derive(Debug)]
pub struct FirehoseError(pub Error);

impl From<Error> for FirehoseError {
    fn from(err: Error) -> (res: FirehoseError) {
        FirehoseError(err)
    }
}

impl vstd::std_specs::convert::FromSpecImpl<Error> for FirehoseError {
    open spec fn obeys_from_spec() -> bool {
        true
    }

    open spec fn from_spec(err: Error) -> FirehoseError {
        FirehoseError(err)
    }
}

/// A response that breaks the rules of the stream, so that there is no event for it.
#[derive(Debug, Clone, Copy, PartialEq, Eq, Structural)]
pub enum Fault {
    /// The step is none of those that exist.
    UnknownStep(i32),
    /// There is no block in the response.
    MissingPayload,
    /// Final blocks are never asked for.
    FinalStep,
    /// A step must be set.
    UnsetStep,
    /// The genesis block cannot be reverted.
    GenesisReverted,
    /// The number of the parent block is not a block number.
    ParentOutOfRange,
    /// A transaction has no outcome.
    MissingTxResult,
}

/// What is wrong with a block in a response with the given step, if anything is.
pub open spec fn block_fault(step: ForkStep, block: BlockModel) -> Option<Fault> {
    match step {
        ForkStep::StepNew => if block.has_results() && !block.has_tx_results() {
            Some(Fault::MissingTxResult)
        } else {
            None
        },
        ForkStep::StepUndo => match block.header {
            Some(header) => if header.last_block_id is None {
                Some(Fault::GenesisReverted)
            } else if !header.parent_in_range() {
                Some(Fault::ParentOutOfRange)
            } else {
                None
            },
            None => None,
        },
        ForkStep::StepFinal => Some(Fault::FinalStep),
        ForkStep::StepUnset => Some(Fault::UnsetStep),
    }
}

/// What is wrong with a response, if anything is. A payload that does not decode is an error,
/// not a fault.
pub open spec fn response_fault(response: ResponseModel) -> Option<Fault> {
    match fork_step(response.step) {
        None => Some(Fault::UnknownStep(response.step)),
        Some(step) => match response.block {
            None => Some(Fault::MissingPayload),
            Some(payload) => match decode::decoded_block(payload.value) {
                Some(block) => block_fault(step, block),
                None => None,
            },
        },
    }
}

/// What the triggers of a block are, or why they cannot be told.
pub open spec fn found_triggers(filter: FilterModel, block: BlockModel) -> Result<
    Seq<TriggerModel>,
    ErrorModel,
> {
    if block.result_begin_block is None {
        Err(ErrorModel::MissingBeginBlock)
    } else if block.result_end_block is None {
        Err(ErrorModel::MissingEndBlock)
    } else {
        Ok(triggers::block_triggers(filter, block))
    }
}

/// The event for a block without a fault. A new block is processed; for a block that is undone
/// the chain is reverted to its parent.
pub open spec fn block_event(
    filter: FilterModel,
    step: ForkStep,
    block: BlockModel,
    cursor: Seq<char>,
) -> Result<StreamEventModel, ErrorModel> {
    if step == ForkStep::StepNew {
        match found_triggers(filter, block) {
            Ok(triggers) => Ok(StreamEventModel::ProcessBlock { block, triggers, cursor }),
            Err(err) => Err(err),
        }
    } else {
        match block.header {
            Some(header) => Ok(StreamEventModel::Revert { parent: header.parent()->0, cursor }),
            None => Err(ErrorModel::MissingHeader),
        }
    }
}

/// The event for a response without a fault.
pub open spec fn response_event(filter: FilterModel, response: ResponseModel) -> Result<
    StreamEventModel,
    ErrorModel,
> {
    match decode::decoded_block(response.block->0.value) {
        Some(block) => block_event(filter, fork_step(response.step)->0, block, response.cursor),
        None => Err(ErrorModel::Decode),
    }
}

/// The model of the outcome of turning a response into an event.
pub open spec fn outcome(res: Result<BlockStreamEvent, FirehoseError>) -> Result<
    StreamEventModel,
    ErrorModel,
> {
    match res {
        Ok(event) => Ok(event.deep_view()),
        Err(err) => Err(err.0.deep_view()),
    }
}

/// The result is what a response without a fault is turned into. A decoding error is the one
/// that decoding the payload gives.
pub open spec fn is_result(
    filter: FilterModel,
    response: ResponseModel,
    res: Result<BlockStreamEvent, FirehoseError>,
) -> bool {
    &&& outcome(res) == response_event(filter, response)
    &&& match res {
        Err(FirehoseError(Error::Decode(err))) => decode::is_decoding_error(
            response.block->0.value,
            err,
        ),
        _ => true,
    }
}

/// Turns the responses of a firehose into events.
pub struct FirehoseMapper {
    pub adapter: TriggersAdapter,
    pub filter: Arc<TriggerFilter>,
}

impl FirehoseMapper {
    /// The filter that the triggers are selected by.
    pub fn trigger_filter(&self) -> (res: &TriggerFilter)
        ensures
            *res == *self.filter,
    {
        &*self.filter
    }

    /// Decodes the payload of a block. There has to be one, so that a success is always a block.
    pub fn decode_block(&self, output: Option<&[u8]>) -> (res: Result<Option<Block>, Error>)
        ensures
            match output {
                Some(payload) => match decode::decoded_block(payload@) {
                    Some(block) => res matches Ok(Some(decoded)) && decoded.deep_view() == block,
                    None => res matches Err(Error::Decode(err)) && call_ensures(
                        Block::decode,
                        (payload,),
                        Err::<Block, DecodeError>(err),
                    ),
                },
                None => res matches Err(err) && err is MissingBlock,
            },
    {
        let block = match output {
            Some(payload) => match Block::decode(payload) {
                Ok(block) => block,
                Err(err) => return Err(Error::Decode(err)),
            },
            None => return Err(Error::MissingBlock),
        };
        Ok(Some(block))
    }

    /// Finds the triggers of a block.
    pub fn block_with_triggers(&self, block: Block) -> (res: Result<BlockWithTriggers, Error>)
        requires
            block.deep_view().has_results() ==> block.deep_view().has_tx_results(),
        ensures
            match res {
                Ok(found) => found.block == block && found_triggers(
                    self.filter.deep_view(),
                    block.deep_view(),
                ) == Ok::<Seq<TriggerModel>, ErrorModel>(found.trigger_data.deep_view()),
                Err(err) => found_triggers(self.filter.deep_view(), block.deep_view()) == Err::<
                    Seq<TriggerModel>,
                    ErrorModel,
                >(err.deep_view()),
            },
    {
        self.adapter.triggers_in_block(block, self.trigger_filter())
    }

    /// The event for a block that came with a step and a cursor.
    pub fn to_block_event(&self, step: ForkStep, block: Block, cursor: FirehoseCursor) -> (res:
        Result<BlockStreamEvent, FirehoseError>)
        requires
            block_fault(step, block.deep_view()) is None,
        ensures
            outcome(res) == block_event(
                self.filter.deep_view(),
                step,
                block.deep_view(),
                cursor.0@,
            ),
    {
        match step {
            ForkStep::StepNew => match self.block_with_triggers(block) {
                Ok(found) => Ok(BlockStreamEvent::ProcessBlock(found, cursor)),
                Err(err) => Err(FirehoseError::from(err)),
            },
            _ => match block.parent_ptr() {
                Ok(parent) => Ok(BlockStreamEvent::Revert(parent.unwrap(), cursor)),
                Err(err) => Err(FirehoseError::from(err)),
            },
        }
    }

    /// The event for a response of the firehose. The response must be free of faults.
    pub fn to_block_stream_event(&self, response: &Response) -> (res: Result<
        BlockStreamEvent,
        FirehoseError,
    >)
        requires
            response_fault(response.deep_view()) is None,
        ensures
            is_result(self.filter.deep_view(), response.deep_view(), res),
    {
        let step = ForkStep::from_i32(response.step).unwrap();
        let any_block = response.block.as_ref().unwrap();
        assert(any_block.value.deep_view() =~= any_block.value@);
        match self.decode_block(Some(any_block.value.as_slice())) {
            Ok(block) => self.to_block_event(
                step,
                block.unwrap(),
                FirehoseCursor(response.cursor.clone()),
            ),
            Err(err) => Err(FirehoseError::from(err)),
        }
    }

    /// Finds out what is wrong with a block in a response with the given step.
    pub fn find_block_fault(step: ForkStep, block: &Block) -> (res: Option<Fault>)
        ensures
            res == block_fault(step, block.deep_view()),
    {
        match step {
            ForkStep::StepNew => {
                if block.result_begin_block.is_none() || block.result_end_block.is_none() {
                    return None;
                }
                let ghost model = block.deep_view();
                let mut i: usize = 0;
                while i < block.transactions.len()
                    invariant
                        i <= block.transactions.len(),
                        step == ForkStep::StepNew,
                        model == block.deep_view(),
                        model.has_results(),
                        forall|k: int|
                            0 <= k < i ==> (#[trigger] model.transactions[k]).result is Some,
                    decreases block.transactions.len() - i,
                {
                    if block.transactions[i].result.is_none() {
                        assert(model.transactions[i as int].result is None);
                        return Some(Fault::MissingTxResult);
                    }
                    i = i + 1;
                }
                None
            },
            ForkStep::StepUndo => match &block.header {
                Some(header) => {
                    if header.last_block_id.is_none() {
                        Some(Fault::GenesisReverted)
                    } else if header.height == 0 || header.height - 1 > 0x7fff_ffff {
                        Some(Fault::ParentOutOfRange)
                    } else {
                        None
                    }
                },
                None => None,
            },
            ForkStep::StepFinal => Some(Fault::FinalStep),
            ForkStep::StepUnset => Some(Fault::UnsetStep),
        }
    }

    /// Finds out what is wrong with a response.
    pub fn find_fault(&self, response: &Response) -> (res: Option<Fault>)
        ensures
            res == response_fault(response.deep_view()),
    {
        let step = match ForkStep::from_i32(response.step) {
            Some(step) => step,
            None => return Some(Fault::UnknownStep(response.step)),
        };
        let any_block = match &response.block {
            Some(any_block) => any_block,
            None => return Some(Fault::MissingPayload),
        };
        assert(any_block.value.deep_view() =~= any_block.value@);
        match self.decode_block(Some(any_block.value.as_slice())) {
            Ok(Some(block)) => Self::find_block_fault(step, &block),
            _ => None,
        }
    }

    /// The event for a response of the firehose, or the fault that the response has.
    pub fn checked_block_stream_event(&self, response: &Response) -> (res: Result<
        Result<BlockStreamEvent, FirehoseError>,
        Fault,
    >)
        ensures
            match res {
                Ok(event) => response_fault(response.deep_view()) is None && is_result(
                    self.filter.deep_view(),
                    response.deep_view(),
                    event,
                ),
                Err(fault) => response_fault(response.deep_view()) == Some(fault),
            },
    {
        match self.find_fault(response) {
            Some(fault) => Err(fault),
            None => Ok(self.to_block_stream_event(response)),
        }
    }

    /// The number of the block that is final once the given block is there. Cosmos provides
    /// instant block finality, so it is the number of the block itself.
    pub fn final_block_number_for(&self, block: &Block) -> (res: i32)
        requires
            block.deep_view().has_number(),
        ensures
            res == block.header->0.height,
    {
        block.number()
    }
}

} // verus!
