//! What a chain is set up with, what a filter wants, and what a block holds, call by call.

use crate::adapter::{CosmosEventTypeFilter, TriggerFilter};
use crate::block::BlockPtr;
use crate::chain::{BasicBlockchainBuilder, BlockIngestorConfig, BlockStreamConfig, Chain};
use crate::codec::{Block, Event, Header, TxResult};
use crate::error::Error;
use crate::firehose::{FirehoseCursor, FirehoseError, FirehoseMapper};
use crate::trigger::CosmosTrigger;
use crate::triggers::{BlockWithTriggers, TriggersAdapter};
use std::sync::Arc;
use vstd::prelude::*;

verus! {

/// A chain has the name it is built with, its ingestor is for the chain of that name, and blocks
/// are never fetched again.
pub proof fn law_chain_keeps_its_name(
    builder: BasicBlockchainBuilder,
    chain: Chain,
    ingestor: BlockIngestorConfig,
    refetch: bool,
    adapter: Result<TriggersAdapter, Error>,
)
    requires
        call_ensures(BasicBlockchainBuilder::build, (builder,), chain),
        call_ensures(Chain::block_ingestor, (&chain,), ingestor),
        call_ensures(Chain::is_refetch_block_required, (&chain,), refetch),
        call_ensures(Chain::triggers_adapter, (&chain,), adapter),
    ensures
        chain.name@ == builder.name@,
        ingestor.chain@ == builder.name@,
        !refetch,
        adapter is Ok,
{
}

/// A block stream starts from what it is asked for: the deployment, the block and the cursor that
/// the deployment has come to, and the start blocks. Its mapper selects by the filter.
pub proof fn law_block_stream(
    chain: &Chain,
    deployment: String,
    current_block: Option<BlockPtr>,
    cursor: FirehoseCursor,
    start_blocks: Vec<i32>,
    filter: Arc<TriggerFilter>,
    res: Result<BlockStreamConfig, Error>,
)
    requires
        call_ensures(
            Chain::new_block_stream,
            (chain, deployment, current_block, cursor, start_blocks, filter),
            res,
        ),
    ensures
        res is Ok,
        res->Ok_0.deployment == deployment,
        res->Ok_0.current_block == current_block,
        res->Ok_0.cursor == cursor,
        res->Ok_0.start_blocks == start_blocks,
        res->Ok_0.mapper.filter == filter,
{
}

/// What the parts of the platform call themselves in the log, and how a chain is shown.
pub proof fn law_names(
    chain: &Chain,
    text: String,
    ingestor: BlockIngestorConfig,
    deployment: String,
    current_block: Option<BlockPtr>,
    cursor: FirehoseCursor,
    start_blocks: Vec<i32>,
    filter: Arc<TriggerFilter>,
    stream: BlockStreamConfig,
)
    requires
        call_ensures(Chain::debug_text, (chain,), text),
        call_ensures(Chain::block_ingestor, (chain,), ingestor),
        call_ensures(
            Chain::new_block_stream,
            (chain, deployment, current_block, cursor, start_blocks, filter),
            Ok::<BlockStreamConfig, Error>(stream),
        ),
    ensures
        text@ == "chain: cosmos"@,
        ingestor.component@ == "CosmosFirehoseBlockIngestor"@,
        stream.component@ == "FirehoseBlockStream"@,
{
}

/// A filter matches exactly the types of events that it is made for, and asks for every block
/// exactly if it is told to.
pub proof fn law_filter(
    trigger_every_block: bool,
    event_types: Vec<String>,
    filter: TriggerFilter,
    event_type: &String,
    matched: bool,
)
    requires
        call_ensures(TriggerFilter::new, (trigger_every_block, event_types), filter),
        call_ensures(
            CosmosEventTypeFilter::matches,
            (&filter.event_type_filter, event_type),
            matched,
        ),
    ensures
        filter.block_filter.trigger_every_block == trigger_every_block,
        matched <==> exists|i: int|
            0 <= i < event_types@.len() && (#[trigger] event_types@[i])@ == event_type@,
{
    let names = event_types.deep_view();
    assert(filter.deep_view().event_types == names.to_set());
    if matched {
        assert(names.contains(event_type@));
        let i = choose|i: int| 0 <= i < names.len() && names[i] == event_type@;
        assert(event_types@[i]@ == event_type@);
    }
    if exists|i: int|
        0 <= i < event_types@.len() && (#[trigger] event_types@[i])@ == event_type@ {
        let i = choose|i: int|
            0 <= i < event_types@.len() && (#[trigger] event_types@[i])@ == event_type@;
        assert(names[i] == event_type@);
        assert(names.contains(event_type@));
    }
}

/// What a block is asked for is what it holds, or an error if it does not hold it.
pub proof fn law_block_parts(
    block: &Block,
    header: Result<&Header, Error>,
    begin: Result<&Vec<Event>, Error>,
    end: Result<&Vec<Event>, Error>,
    transactions: &Vec<TxResult>,
)
    requires
        call_ensures(Block::header, (block,), header),
        call_ensures(Block::begin_block_events, (block,), begin),
        call_ensures(Block::end_block_events, (block,), end),
        call_ensures(Block::transactions, (block,), transactions),
    ensures
        match header {
            Ok(header) => block.header == Some(*header),
            Err(err) => block.header is None && err is MissingHeader,
        },
        match begin {
            Ok(events) => block.result_begin_block is Some && *events
                == block.result_begin_block->0.events,
            Err(err) => block.result_begin_block is None && err is MissingBeginBlock,
        },
        match end {
            Ok(events) => block.result_end_block is Some && *events
                == block.result_end_block->0.events,
            Err(err) => block.result_end_block is None && err is MissingEndBlock,
        },
        *transactions == block.transactions,
{
}

/// A block and its triggers are put together unchanged, a mapper hands out its own filter, and an
/// error is passed on as it is.
pub proof fn law_nothing_is_changed(
    block: Block,
    trigger_data: Vec<CosmosTrigger>,
    together: BlockWithTriggers,
    mapper: &FirehoseMapper,
    filter: &TriggerFilter,
    err: Error,
    wrapped: FirehoseError,
)
    requires
        call_ensures(BlockWithTriggers::new, (block, trigger_data), together),
        call_ensures(FirehoseMapper::trigger_filter, (mapper,), filter),
        call_ensures(<FirehoseError as From<Error>>::from, (err,), wrapped),
    ensures
        together.block == block,
        together.trigger_data == trigger_data,
        *filter == *mapper.filter,
        wrapped.0 == err,
{
}

/// The texts of the errors.
pub proof fn law_error_texts(err: &Error, text: String)
    requires
        call_ensures(Error::message, (err,), text),
    ensures
        err is MissingBlock ==> text@ == "cosmos mapper is expected to always have a block"@,
        err is MissingHeader ==> text@ == "block data missing header field"@,
        err is MissingBeginBlock ==> text@ == "block data missing result_begin_block field"@,
        err is MissingEndBlock ==> text@ == "block data missing result_end_block field"@,
{
}

} // verus!
