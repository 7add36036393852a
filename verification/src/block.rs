//! Reading a block: its header, its number, its parent and its events.

use crate::codec::{
    Block, BlockModel, Event, EventModel, Header, HeaderModel, HeaderOnlyBlock,
    HeaderOnlyBlockModel, TxResult,
};
use crate::error::Error;
use vstd::prelude::*;

verus! {

/// The hash that identifies a block.
#[derive(Debug, PartialEq, Eq)]
pub struct BlockHash(pub Vec<u8>);

/// A pointer to a block: its hash and its number.
#[derive(Debug, PartialEq, Eq)]
pub struct BlockPtr {
    pub hash: BlockHash,
    pub number: i32,
}

/// Model of [`BlockPtr`].
#[verifier::ext_equal]
pub struct BlockPtrModel {
    pub hash: Seq<u8>,
    pub number: int,
}

impl DeepView for BlockPtr {
    type V = BlockPtrModel;

    open spec fn deep_view(&self) -> BlockPtrModel {
        BlockPtrModel { hash: self.hash.0.deep_view(), number: self.number as int }
    }
}

impl HeaderModel {
    /// The parent that the header names. The header of the genesis block names none.
    pub open spec fn parent(self) -> Option<BlockPtrModel> {
        match self.last_block_id {
            Some(id) => Some(BlockPtrModel { hash: id.hash, number: self.height - 1 }),
            None => None,
        }
    }

    /// The number of the parent, where the header names one, is a block number.
    pub open spec fn parent_in_range(self) -> bool {
        self.last_block_id is Some ==> 1 <= self.height <= i32::MAX + 1
    }
}

impl BlockModel {
    /// The block without anything but its header.
    pub open spec fn header_only(self) -> HeaderOnlyBlockModel {
        HeaderOnlyBlockModel { header: self.header }
    }

    /// The events of the begin-block result; none if there is no such result.
    pub open spec fn begin_events(self) -> Seq<EventModel> {
        match self.result_begin_block {
            Some(result) => result.events,
            None => Seq::empty(),
        }
    }

    /// The events of the end-block result; none if there is no such result.
    pub open spec fn end_events(self) -> Seq<EventModel> {
        match self.result_end_block {
            Some(result) => result.events,
            None => Seq::empty(),
        }
    }

    /// The block has a header, and the height in it is a block number.
    pub open spec fn has_number(self) -> bool {
        self.header is Some && self.header->0.height <= i32::MAX
    }
}

impl Block {
    /// The header of the block.
    pub fn header(&self) -> (res: Result<&Header, Error>)
        ensures
            match res {
                Ok(header) => self.header == Some(*header),
                Err(err) => self.header is None && err is MissingHeader,
            },
    {
        match &self.header {
            Some(header) => Ok(header),
            None => Err(Error::MissingHeader),
        }
    }

    /// The events emitted when the block began.
    pub fn begin_block_events(&self) -> (res: Result<&Vec<Event>, Error>)
        ensures
            match res {
                Ok(events) => {
                    &&& self.result_begin_block is Some
                    &&& *events == self.result_begin_block->0.events
                    &&& events.deep_view() == self.deep_view().begin_events()
                },
                Err(err) => self.result_begin_block is None && err is MissingBeginBlock,
            },
    {
        match &self.result_begin_block {
            Some(result) => Ok(&result.events),
            None => Err(Error::MissingBeginBlock),
        }
    }

    /// The events emitted when the block ended.
    pub fn end_block_events(&self) -> (res: Result<&Vec<Event>, Error>)
        ensures
            match res {
                Ok(events) => {
                    &&& self.result_end_block is Some
                    &&& *events == self.result_end_block->0.events
                    &&& events.deep_view() == self.deep_view().end_events()
                },
                Err(err) => self.result_end_block is None && err is MissingEndBlock,
            },
    {
        match &self.result_end_block {
            Some(result) => Ok(&result.events),
            None => Err(Error::MissingEndBlock),
        }
    }

    /// The transactions of the block, in order.
    pub fn transactions(&self) -> (res: &Vec<TxResult>)
        ensures
            *res == self.transactions,
    {
        &self.transactions
    }

    /// The number of the block.
    pub fn number(&self) -> (res: i32)
        requires
            self.deep_view().has_number(),
        ensures
            res == self.header->0.height,
    {
        match &self.header {
            Some(header) => header.height as i32,
            None => 0,
        }
    }

    /// The parent of the block; `None` for the genesis block.
    pub fn parent_ptr(&self) -> (res: Result<Option<BlockPtr>, Error>)
        requires
            self.header is Some ==> self.header->0.deep_view().parent_in_range(),
        ensures
            match res {
                Ok(parent) => {
                    &&& self.header is Some
                    &&& parent.deep_view() == self.header->0.deep_view().parent()
                    &&& match parent {
                        Some(ptr) => {
                            &&& self.header->0.last_block_id is Some
                            &&& ptr.hash.0@ == self.header->0.last_block_id->0.hash@
                            &&& ptr.number + 1 == self.header->0.height
                        },
                        None => self.header->0.last_block_id is None,
                    }
                },
                Err(err) => self.header is None && err is MissingHeader,
            },
    {
        let header = match self.header() {
            Ok(header) => header,
            Err(err) => return Err(err),
        };
        match &header.last_block_id {
            Some(id) => {
                let number: i32 = (header.height - 1) as i32;
                Ok(Some(BlockPtr { hash: BlockHash(id.hash.clone()), number }))
            },
            None => Ok(None),
        }
    }
}

impl From<&Block> for HeaderOnlyBlock {
    /// Keeps the header of a block and drops the rest.
    fn from(block: &Block) -> (res: HeaderOnlyBlock)
        ensures
            res.deep_view() == block.deep_view().header_only(),
            res.header.deep_view() == block.header.deep_view(),
    {
        HeaderOnlyBlock { header: block.header.clone() }
    }
}

impl vstd::std_specs::convert::FromSpecImpl<&Block> for HeaderOnlyBlock {
    open spec fn obeys_from_spec() -> bool {
        false
    }

    open spec fn from_spec(block: &Block) -> HeaderOnlyBlock {
        HeaderOnlyBlock { header: block.header }
    }
}

} // verus!
