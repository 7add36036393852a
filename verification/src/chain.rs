//! A Cosmos chain, and what its block streams and its ingestor are set up with.

use crate::adapter::TriggerFilter;
use crate::block::BlockPtr;
use crate::error::Error;
use crate::firehose::{FirehoseCursor, FirehoseMapper};
use crate::triggers::TriggersAdapter;
use std::sync::Arc;
use vstd::prelude::*;

verus! {

/// Collects what a chain is made of.
pub struct BasicBlockchainBuilder {
    pub name: String,
}

/// A Cosmos chain.
pub struct Chain {
    pub name: String,
}

/// What a block stream over a firehose starts from.
pub struct BlockStreamConfig {
    /// Hash of the deployment that the stream is for.
    pub deployment: String,
    /// The block that the deployment has come to.
    pub current_block: Option<BlockPtr>,
    /// The position in the firehose that the deployment has come to.
    pub cursor: FirehoseCursor,
    pub mapper: Arc<FirehoseMapper>,
    /// The blocks that the data sources of the deployment start at.
    pub start_blocks: Vec<i32>,
    /// The name of the component in the log.
    pub component: String,
}

/// What a block ingestor over a firehose starts from.
pub struct BlockIngestorConfig {
    pub chain: String,
    /// The name of the component in the log.
    pub component: String,
}

impl BasicBlockchainBuilder {
    /// Makes the chain.
    pub fn build(self) -> (res: Chain)
        ensures
            res.name == self.name,
    {
        Chain { name: self.name }
    }
}

impl Chain {
    /// How the chain is shown in debug output.
    pub fn debug_text(&self) -> (res: String)
        ensures
            res@ == "chain: cosmos"@,
    {
        "chain: cosmos".to_owned()
    }

    /// Whether blocks have to be fetched again once data sources were created. They never have
    /// to: there are no dynamic data sources on this chain.
    pub fn is_refetch_block_required(&self) -> (res: bool)
        ensures
            !res,
    {
        false
    }

    /// The adapter that finds triggers in the blocks of the chain.
    pub fn triggers_adapter(&self) -> (res: Result<TriggersAdapter, Error>)
        ensures
            res == Ok::<TriggersAdapter, Error>(TriggersAdapter {  }),
    {
        Ok(TriggersAdapter {  })
    }

    /// What a stream of the blocks of the chain starts from.
    pub fn new_block_stream(
        &self,
        deployment: String,
        current_block: Option<BlockPtr>,
        cursor: FirehoseCursor,
        start_blocks: Vec<i32>,
        filter: Arc<TriggerFilter>,
    ) -> (res: Result<BlockStreamConfig, Error>)
        ensures
            match res {
                Ok(config) => {
                    &&& config.deployment == deployment
                    &&& config.current_block == current_block
                    &&& config.cursor == cursor
                    &&& config.mapper.adapter == TriggersAdapter {  }
                    &&& config.mapper.filter == filter
                    &&& config.start_blocks == start_blocks
                    &&& config.component@ == "FirehoseBlockStream"@
                },
                Err(_) => false,
            },
    {
        let adapter = match self.triggers_adapter() {
            Ok(adapter) => adapter,
            Err(err) => return Err(err),
        };
        let mapper = Arc::new(FirehoseMapper { adapter, filter });
        Ok(
            BlockStreamConfig {
                deployment,
                current_block,
                cursor,
                mapper,
                start_blocks,
                component: "FirehoseBlockStream".to_owned(),
            },
        )
    }

    /// What the ingestor of the blocks of the chain starts from.
    pub fn block_ingestor(&self) -> (res: BlockIngestorConfig)
        ensures
            res.chain@ == self.name@,
            res.component@ == "CosmosFirehoseBlockIngestor"@,
    {
        BlockIngestorConfig {
            chain: self.name.clone(),
            component: "CosmosFirehoseBlockIngestor".to_owned(),
        }
    }
}

} // verus!
