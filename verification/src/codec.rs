//! The messages of a Cosmos block.
//!
//! Every message has a mathematical model, which its `deep_view` gives: strings are
//! sequences of characters, vectors are sequences, and nested messages are their models.
//! The contracts of this crate speak of models. Cloning a message keeps its model.
//!
//! Parts of a block that no trigger looks into (the evidence, the last commit, the validator
//! and consensus updates, the authentication data of a transaction) are carried as the bytes
//! of their encoded messages. Decoding a block checks that these bytes are such messages.

use vstd::prelude::*;

verus! {

/// A typed payload: the kind of a message and its encoded bytes.
#[derive(Debug, PartialEq, Eq, PartialOrd, Ord)]
pub struct Any {
    pub type_url: String,
    pub value: Vec<u8>,
}

/// Model of [`Any`].
#[verifier::ext_equal]
pub struct AnyModel {
    pub type_url: Seq<char>,
    pub value: Seq<u8>,
}

impl DeepView for Any {
    type V = AnyModel;

    open spec fn deep_view(&self) -> AnyModel {
        AnyModel { type_url: self.type_url@, value: self.value.deep_view() }
    }
}

impl Clone for Any {
    fn clone(&self) -> (res: Self)
        ensures
            res.deep_view() == self.deep_view(),
    {
        Any { type_url: self.type_url.clone(), value: self.value.clone() }
    }
}

/// One key and value that a module attached to an event.
#[derive(Debug, PartialEq, Eq, PartialOrd, Ord)]
pub struct EventAttribute {
    pub key: String,
    pub value: String,
    pub index: bool,
}

/// Model of [`EventAttribute`].
#[verifier::ext_equal]
pub struct EventAttributeModel {
    pub key: Seq<char>,
    pub value: Seq<char>,
    pub index: bool,
}

impl DeepView for EventAttribute {
    type V = EventAttributeModel;

    open spec fn deep_view(&self) -> EventAttributeModel {
        EventAttributeModel { key: self.key@, value: self.value@, index: self.index }
    }
}

impl Clone for EventAttribute {
    fn clone(&self) -> (res: Self)
        ensures
            res.deep_view() == self.deep_view(),
    {
        EventAttribute { key: self.key.clone(), value: self.value.clone(), index: self.index }
    }
}

/// An event that a module emitted.
#[derive(Debug, PartialEq, Eq, PartialOrd, Ord)]
pub struct Event {
    pub event_type: String,
    pub attributes: Vec<EventAttribute>,
}

/// Model of [`Event`].
#[verifier::ext_equal]
pub struct EventModel {
    pub event_type: Seq<char>,
    pub attributes: Seq<EventAttributeModel>,
}

impl DeepView for Event {
    type V = EventModel;

    open spec fn deep_view(&self) -> EventModel {
        EventModel { event_type: self.event_type@, attributes: self.attributes.deep_view() }
    }
}

impl Clone for Event {
    fn clone(&self) -> (res: Self)
        ensures
            res.deep_view() == self.deep_view(),
    {
        Event { event_type: self.event_type.clone(), attributes: self.attributes.clone() }
    }
}

/// A transaction, as far as the chain looks into it.
#[derive(Debug, PartialEq, Eq, PartialOrd, Ord)]
pub struct Tx {
    pub body: Option<TxBody>,
    /// Encoded authentication data.
    pub auth_info: Option<Vec<u8>>,
    pub signatures: Vec<Vec<u8>>,
}

/// The signed content of a transaction.
#[derive(Debug, PartialEq, Eq, PartialOrd, Ord)]
pub struct TxBody {
    pub messages: Vec<Any>,
    pub memo: String,
    pub timeout_height: u64,
    pub extension_options: Vec<Any>,
    pub non_critical_extension_options: Vec<Any>,
}

/// Model of [`TxBody`].
#[verifier::ext_equal]
pub struct TxBodyModel {
    pub messages: Seq<AnyModel>,
    pub memo: Seq<char>,
    pub timeout_height: u64,
    pub extension_options: Seq<AnyModel>,
    pub non_critical_extension_options: Seq<AnyModel>,
}

impl DeepView for TxBody {
    type V = TxBodyModel;

    open spec fn deep_view(&self) -> TxBodyModel {
        TxBodyModel {
            messages: self.messages.deep_view(),
            memo: self.memo@,
            timeout_height: self.timeout_height,
            extension_options: self.extension_options.deep_view(),
            non_critical_extension_options: self.non_critical_extension_options.deep_view(),
        }
    }
}

impl Clone for TxBody {
    fn clone(&self) -> (res: Self)
        ensures
            res.deep_view() == self.deep_view(),
    {
        TxBody {
            messages: self.messages.clone(),
            memo: self.memo.clone(),
            timeout_height: self.timeout_height,
            extension_options: self.extension_options.clone(),
            non_critical_extension_options: self.non_critical_extension_options.clone(),
        }
    }
}

/// Model of [`Tx`].
#[verifier::ext_equal]
pub struct TxModel {
    pub body: Option<TxBodyModel>,
    pub auth_info: Option<Seq<u8>>,
    pub signatures: Seq<Seq<u8>>,
}

impl DeepView for Tx {
    type V = TxModel;

    open spec fn deep_view(&self) -> TxModel {
        TxModel {
            body: self.body.deep_view(),
            auth_info: self.auth_info.deep_view(),
            signatures: self.signatures.deep_view(),
        }
    }
}

impl Clone for Tx {
    fn clone(&self) -> (res: Self)
        ensures
            res.deep_view() == self.deep_view(),
    {
        Tx {
            body: self.body.clone(),
            auth_info: self.auth_info.clone(),
            signatures: self.signatures.clone(),
        }
    }
}

/// The outcome of a delivered transaction.
#[derive(Debug, PartialEq, Eq, PartialOrd, Ord)]
pub struct ResponseDeliverTx {
    pub code: u32,
    pub data: Vec<u8>,
    pub log: String,
    pub info: String,
    pub gas_wanted: i64,
    pub gas_used: i64,
    pub events: Vec<Event>,
    pub codespace: String,
}

/// Model of [`ResponseDeliverTx`].
#[verifier::ext_equal]
pub struct ResponseDeliverTxModel {
    pub code: u32,
    pub data: Seq<u8>,
    pub log: Seq<char>,
    pub info: Seq<char>,
    pub gas_wanted: i64,
    pub gas_used: i64,
    pub events: Seq<EventModel>,
    pub codespace: Seq<char>,
}

impl DeepView for ResponseDeliverTx {
    type V = ResponseDeliverTxModel;

    open spec fn deep_view(&self) -> ResponseDeliverTxModel {
        ResponseDeliverTxModel {
            code: self.code,
            data: self.data.deep_view(),
            log: self.log@,
            info: self.info@,
            gas_wanted: self.gas_wanted,
            gas_used: self.gas_used,
            events: self.events.deep_view(),
            codespace: self.codespace@,
        }
    }
}

impl Clone for ResponseDeliverTx {
    fn clone(&self) -> (res: Self)
        ensures
            res.deep_view() == self.deep_view(),
    {
        ResponseDeliverTx {
            code: self.code,
            data: self.data.clone(),
            log: self.log.clone(),
            info: self.info.clone(),
            gas_wanted: self.gas_wanted,
            gas_used: self.gas_used,
            events: self.events.clone(),
            codespace: self.codespace.clone(),
        }
    }
}

/// A transaction of a block together with its outcome.
#[derive(Debug, PartialEq, Eq, PartialOrd, Ord)]
pub struct TxResult {
    pub height: u64,
    /// Position of the transaction in its block.
    pub index: u32,
    pub tx: Option<Tx>,
    pub result: Option<ResponseDeliverTx>,
    pub hash: Vec<u8>,
}

/// Model of [`TxResult`].
#[verifier::ext_equal]
pub struct TxResultModel {
    pub height: u64,
    pub index: u32,
    pub tx: Option<TxModel>,
    pub result: Option<ResponseDeliverTxModel>,
    pub hash: Seq<u8>,
}

impl DeepView for TxResult {
    type V = TxResultModel;

    open spec fn deep_view(&self) -> TxResultModel {
        TxResultModel {
            height: self.height,
            index: self.index,
            tx: self.tx.deep_view(),
            result: self.result.deep_view(),
            hash: self.hash.deep_view(),
        }
    }
}

impl Clone for TxResult {
    fn clone(&self) -> (res: Self)
        ensures
            res.deep_view() == self.deep_view(),
    {
        TxResult {
            height: self.height,
            index: self.index,
            tx: self.tx.clone(),
            result: self.result.clone(),
            hash: self.hash.clone(),
        }
    }
}

/// What the application reported when the block began.
#[derive(Debug, PartialEq, Eq, PartialOrd, Ord)]
pub struct ResponseBeginBlock {
    pub events: Vec<Event>,
}

/// Model of [`ResponseBeginBlock`].
#[verifier::ext_equal]
pub struct ResponseBeginBlockModel {
    pub events: Seq<EventModel>,
}

impl DeepView for ResponseBeginBlock {
    type V = ResponseBeginBlockModel;

    open spec fn deep_view(&self) -> ResponseBeginBlockModel {
        ResponseBeginBlockModel {
            events: self.events.deep_view(),
        }
    }
}

impl Clone for ResponseBeginBlock {
    fn clone(&self) -> (res: Self)
        ensures
            res.deep_view() == self.deep_view(),
    {
        ResponseBeginBlock {
            events: self.events.clone(),
        }
    }
}

/// What the application reported when the block ended.
#[derive(Debug, PartialEq, Eq, PartialOrd, Ord)]
pub struct ResponseEndBlock {
    /// Encoded validator updates.
    pub validator_updates: Vec<Vec<u8>>,
    /// Encoded consensus parameters.
    pub consensus_param_updates: Option<Vec<u8>>,
    pub events: Vec<Event>,
}

/// Model of [`ResponseEndBlock`].
#[verifier::ext_equal]
pub struct ResponseEndBlockModel {
    pub validator_updates: Seq<Seq<u8>>,
    pub consensus_param_updates: Option<Seq<u8>>,
    pub events: Seq<EventModel>,
}

impl DeepView for ResponseEndBlock {
    type V = ResponseEndBlockModel;

    open spec fn deep_view(&self) -> ResponseEndBlockModel {
        ResponseEndBlockModel {
            validator_updates: self.validator_updates.deep_view(),
            consensus_param_updates: self.consensus_param_updates.deep_view(),
            events: self.events.deep_view(),
        }
    }
}

impl Clone for ResponseEndBlock {
    fn clone(&self) -> (res: Self)
        ensures
            res.deep_view() == self.deep_view(),
    {
        ResponseEndBlock {
            validator_updates: self.validator_updates.clone(),
            consensus_param_updates: self.consensus_param_updates.clone(),
            events: self.events.clone(),
        }
    }
}

/// Versions of the block and application protocols.
#[derive(Debug, PartialEq, Eq, PartialOrd, Ord)]
pub struct Consensus {
    pub block: u64,
    pub app: u64,
}

/// Model of [`Consensus`].
#[verifier::ext_equal]
pub struct ConsensusModel {
    pub block: u64,
    pub app: u64,
}

impl DeepView for Consensus {
    type V = ConsensusModel;

    open spec fn deep_view(&self) -> ConsensusModel {
        ConsensusModel {
            block: self.block,
            app: self.app,
        }
    }
}

impl Clone for Consensus {
    fn clone(&self) -> (res: Self)
        ensures
            res.deep_view() == self.deep_view(),
    {
        Consensus {
            block: self.block,
            app: self.app,
        }
    }
}

/// A point in time.
#[derive(Debug, PartialEq, Eq, PartialOrd, Ord)]
pub struct Timestamp {
    pub seconds: i64,
    pub nanos: i32,
}

/// Model of [`Timestamp`].
#[verifier::ext_equal]
pub struct TimestampModel {
    pub seconds: i64,
    pub nanos: i32,
}

impl DeepView for Timestamp {
    type V = TimestampModel;

    open spec fn deep_view(&self) -> TimestampModel {
        TimestampModel {
            seconds: self.seconds,
            nanos: self.nanos,
        }
    }
}

impl Clone for Timestamp {
    fn clone(&self) -> (res: Self)
        ensures
            res.deep_view() == self.deep_view(),
    {
        Timestamp {
            seconds: self.seconds,
            nanos: self.nanos,
        }
    }
}

/// Summary of the parts a block is gossiped in.
#[derive(Debug, PartialEq, Eq, PartialOrd, Ord)]
pub struct PartSetHeader {
    pub total: u32,
    pub hash: Vec<u8>,
}

/// Model of [`PartSetHeader`].
#[verifier::ext_equal]
pub struct PartSetHeaderModel {
    pub total: u32,
    pub hash: Seq<u8>,
}

impl DeepView for PartSetHeader {
    type V = PartSetHeaderModel;

    open spec fn deep_view(&self) -> PartSetHeaderModel {
        PartSetHeaderModel {
            total: self.total,
            hash: self.hash.deep_view(),
        }
    }
}

impl Clone for PartSetHeader {
    fn clone(&self) -> (res: Self)
        ensures
            res.deep_view() == self.deep_view(),
    {
        PartSetHeader {
            total: self.total,
            hash: self.hash.clone(),
        }
    }
}

/// Identity of a block.
#[derive(Debug, PartialEq, Eq, PartialOrd, Ord)]
pub struct BlockId {
    pub hash: Vec<u8>,
    pub part_set_header: Option<PartSetHeader>,
}

/// Model of [`BlockId`].
#[verifier::ext_equal]
pub struct BlockIdModel {
    pub hash: Seq<u8>,
    pub part_set_header: Option<PartSetHeaderModel>,
}

impl DeepView for BlockId {
    type V = BlockIdModel;

    open spec fn deep_view(&self) -> BlockIdModel {
        BlockIdModel {
            hash: self.hash.deep_view(),
            part_set_header: self.part_set_header.deep_view(),
        }
    }
}

impl Clone for BlockId {
    fn clone(&self) -> (res: Self)
        ensures
            res.deep_view() == self.deep_view(),
    {
        BlockId {
            hash: self.hash.clone(),
            part_set_header: self.part_set_header.clone(),
        }
    }
}

/// The header of a block.
#[derive(Debug, PartialEq, Eq, PartialOrd, Ord)]
pub struct Header {
    pub version: Option<Consensus>,
    pub chain_id: String,
    pub height: u64,
    pub time: Option<Timestamp>,
    /// Identity of the parent block; absent from the genesis block.
    pub last_block_id: Option<BlockId>,
    pub last_commit_hash: Vec<u8>,
    pub data_hash: Vec<u8>,
    pub validators_hash: Vec<u8>,
    pub next_validators_hash: Vec<u8>,
    pub consensus_hash: Vec<u8>,
    pub app_hash: Vec<u8>,
    pub last_results_hash: Vec<u8>,
    pub evidence_hash: Vec<u8>,
    pub proposer_address: Vec<u8>,
    pub hash: Vec<u8>,
}

/// Model of [`Header`].
#[verifier::ext_equal]
pub struct HeaderModel {
    pub version: Option<ConsensusModel>,
    pub chain_id: Seq<char>,
    pub height: u64,
    pub time: Option<TimestampModel>,
    pub last_block_id: Option<BlockIdModel>,
    pub last_commit_hash: Seq<u8>,
    pub data_hash: Seq<u8>,
    pub validators_hash: Seq<u8>,
    pub next_validators_hash: Seq<u8>,
    pub consensus_hash: Seq<u8>,
    pub app_hash: Seq<u8>,
    pub last_results_hash: Seq<u8>,
    pub evidence_hash: Seq<u8>,
    pub proposer_address: Seq<u8>,
    pub hash: Seq<u8>,
}

impl DeepView for Header {
    type V = HeaderModel;

    open spec fn deep_view(&self) -> HeaderModel {
        HeaderModel {
            version: self.version.deep_view(),
            chain_id: self.chain_id@,
            height: self.height,
            time: self.time.deep_view(),
            last_block_id: self.last_block_id.deep_view(),
            last_commit_hash: self.last_commit_hash.deep_view(),
            data_hash: self.data_hash.deep_view(),
            validators_hash: self.validators_hash.deep_view(),
            next_validators_hash: self.next_validators_hash.deep_view(),
            consensus_hash: self.consensus_hash.deep_view(),
            app_hash: self.app_hash.deep_view(),
            last_results_hash: self.last_results_hash.deep_view(),
            evidence_hash: self.evidence_hash.deep_view(),
            proposer_address: self.proposer_address.deep_view(),
            hash: self.hash.deep_view(),
        }
    }
}

impl Clone for Header {
    fn clone(&self) -> (res: Self)
        ensures
            res.deep_view() == self.deep_view(),
    {
        Header {
            version: self.version.clone(),
            chain_id: self.chain_id.clone(),
            height: self.height,
            time: self.time.clone(),
            last_block_id: self.last_block_id.clone(),
            last_commit_hash: self.last_commit_hash.clone(),
            data_hash: self.data_hash.clone(),
            validators_hash: self.validators_hash.clone(),
            next_validators_hash: self.next_validators_hash.clone(),
            consensus_hash: self.consensus_hash.clone(),
            app_hash: self.app_hash.clone(),
            last_results_hash: self.last_results_hash.clone(),
            evidence_hash: self.evidence_hash.clone(),
            proposer_address: self.proposer_address.clone(),
            hash: self.hash.clone(),
        }
    }
}

/// A block with everything that happened in it.
#[derive(Debug, PartialEq, Eq, PartialOrd, Ord)]
pub struct Block {
    pub header: Option<Header>,
    /// Encoded evidence of misbehaviour.
    pub evidence: Option<Vec<u8>>,
    /// Encoded commit of the parent block.
    pub last_commit: Option<Vec<u8>>,
    pub result_begin_block: Option<ResponseBeginBlock>,
    pub result_end_block: Option<ResponseEndBlock>,
    pub transactions: Vec<TxResult>,
    /// Encoded validators that changed.
    pub validator_updates: Vec<Vec<u8>>,
}

/// Model of [`Block`].
#[verifier::ext_equal]
pub struct BlockModel {
    pub header: Option<HeaderModel>,
    pub evidence: Option<Seq<u8>>,
    pub last_commit: Option<Seq<u8>>,
    pub result_begin_block: Option<ResponseBeginBlockModel>,
    pub result_end_block: Option<ResponseEndBlockModel>,
    pub transactions: Seq<TxResultModel>,
    pub validator_updates: Seq<Seq<u8>>,
}

impl DeepView for Block {
    type V = BlockModel;

    open spec fn deep_view(&self) -> BlockModel {
        BlockModel {
            header: self.header.deep_view(),
            evidence: self.evidence.deep_view(),
            last_commit: self.last_commit.deep_view(),
            result_begin_block: self.result_begin_block.deep_view(),
            result_end_block: self.result_end_block.deep_view(),
            transactions: self.transactions.deep_view(),
            validator_updates: self.validator_updates.deep_view(),
        }
    }
}

impl Clone for Block {
    fn clone(&self) -> (res: Self)
        ensures
            res.deep_view() == self.deep_view(),
    {
        Block {
            header: self.header.clone(),
            evidence: self.evidence.clone(),
            last_commit: self.last_commit.clone(),
            result_begin_block: self.result_begin_block.clone(),
            result_end_block: self.result_end_block.clone(),
            transactions: self.transactions.clone(),
            validator_updates: self.validator_updates.clone(),
        }
    }
}

/// A block of which only the header is kept.
#[derive(Debug, PartialEq, Eq, PartialOrd, Ord)]
pub struct HeaderOnlyBlock {
    pub header: Option<Header>,
}

/// Model of [`HeaderOnlyBlock`].
#[verifier::ext_equal]
pub struct HeaderOnlyBlockModel {
    pub header: Option<HeaderModel>,
}

impl DeepView for HeaderOnlyBlock {
    type V = HeaderOnlyBlockModel;

    open spec fn deep_view(&self) -> HeaderOnlyBlockModel {
        HeaderOnlyBlockModel {
            header: self.header.deep_view(),
        }
    }
}

impl Clone for HeaderOnlyBlock {
    fn clone(&self) -> (res: Self)
        ensures
            res.deep_view() == self.deep_view(),
    {
        HeaderOnlyBlock {
            header: self.header.clone(),
        }
    }
}

/// The transaction that an event or a message belongs to.
#[derive(Debug, PartialEq, Eq, PartialOrd, Ord)]
pub struct TransactionContext {
    pub hash: Vec<u8>,
    pub index: u32,
    pub code: u32,
    pub gas_wanted: i64,
    pub gas_used: i64,
}

/// Model of [`TransactionContext`].
#[verifier::ext_equal]
pub struct TransactionContextModel {
    pub hash: Seq<u8>,
    pub index: u32,
    pub code: u32,
    pub gas_wanted: i64,
    pub gas_used: i64,
}

impl DeepView for TransactionContext {
    type V = TransactionContextModel;

    open spec fn deep_view(&self) -> TransactionContextModel {
        TransactionContextModel {
            hash: self.hash.deep_view(),
            index: self.index,
            code: self.code,
            gas_wanted: self.gas_wanted,
            gas_used: self.gas_used,
        }
    }
}

impl Clone for TransactionContext {
    fn clone(&self) -> (res: Self)
        ensures
            res.deep_view() == self.deep_view(),
    {
        TransactionContext {
            hash: self.hash.clone(),
            index: self.index,
            code: self.code,
            gas_wanted: self.gas_wanted,
            gas_used: self.gas_used,
        }
    }
}

/// Payload of an event trigger.
#[derive(Debug, PartialEq, Eq, PartialOrd, Ord)]
pub struct EventData {
    pub event: Option<Event>,
    pub block: Option<HeaderOnlyBlock>,
    /// Present for events of transactions only.
    pub tx: Option<TransactionContext>,
}

/// Model of [`EventData`].
#[verifier::ext_equal]
pub struct EventDataModel {
    pub event: Option<EventModel>,
    pub block: Option<HeaderOnlyBlockModel>,
    pub tx: Option<TransactionContextModel>,
}

impl DeepView for EventData {
    type V = EventDataModel;

    open spec fn deep_view(&self) -> EventDataModel {
        EventDataModel {
            event: self.event.deep_view(),
            block: self.block.deep_view(),
            tx: self.tx.deep_view(),
        }
    }
}

impl Clone for EventData {
    fn clone(&self) -> (res: Self)
        ensures
            res.deep_view() == self.deep_view(),
    {
        EventData {
            event: self.event.clone(),
            block: self.block.clone(),
            tx: self.tx.clone(),
        }
    }
}

/// Payload of a transaction trigger.
#[derive(Debug, PartialEq, Eq, PartialOrd, Ord)]
pub struct TransactionData {
    pub tx: Option<TxResult>,
    pub block: Option<HeaderOnlyBlock>,
}

/// Model of [`TransactionData`].
#[verifier::ext_equal]
pub struct TransactionDataModel {
    pub tx: Option<TxResultModel>,
    pub block: Option<HeaderOnlyBlockModel>,
}

impl DeepView for TransactionData {
    type V = TransactionDataModel;

    open spec fn deep_view(&self) -> TransactionDataModel {
        TransactionDataModel {
            tx: self.tx.deep_view(),
            block: self.block.deep_view(),
        }
    }
}

impl Clone for TransactionData {
    fn clone(&self) -> (res: Self)
        ensures
            res.deep_view() == self.deep_view(),
    {
        TransactionData {
            tx: self.tx.clone(),
            block: self.block.clone(),
        }
    }
}

/// Payload of a message trigger.
#[derive(Debug, PartialEq, Eq, PartialOrd, Ord)]
pub struct MessageData {
    pub message: Option<Any>,
    pub block: Option<HeaderOnlyBlock>,
    pub tx: Option<TransactionContext>,
}

/// Model of [`MessageData`].
#[verifier::ext_equal]
pub struct MessageDataModel {
    pub message: Option<AnyModel>,
    pub block: Option<HeaderOnlyBlockModel>,
    pub tx: Option<TransactionContextModel>,
}

impl DeepView for MessageData {
    type V = MessageDataModel;

    open spec fn deep_view(&self) -> MessageDataModel {
        MessageDataModel {
            message: self.message.deep_view(),
            block: self.block.deep_view(),
            tx: self.tx.deep_view(),
        }
    }
}

impl Clone for MessageData {
    fn clone(&self) -> (res: Self)
        ensures
            res.deep_view() == self.deep_view(),
    {
        MessageData {
            message: self.message.clone(),
            block: self.block.clone(),
            tx: self.tx.clone(),
        }
    }
}

} // verus!
