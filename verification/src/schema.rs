//! Which fields the messages in a block have.

use vstd::prelude::*;

verus! {

/// The kinds of messages in a block.
#[derive(Debug, Clone, Copy, PartialEq, Eq, Structural)]
pub enum Kind {
    Block,
    Header,
    Consensus,
    Timestamp,
    BlockId,
    PartSetHeader,
    ResponseBeginBlock,
    ResponseEndBlock,
    Event,
    EventAttribute,
    TxResult,
    Tx,
    TxBody,
    Any,
    ResponseDeliverTx,
    EvidenceList,
    Evidence,
    DuplicateVoteEvidence,
    EventVote,
    LightClientAttackEvidence,
    LightBlock,
    SignedHeader,
    Commit,
    CommitSig,
    ValidatorSet,
    Validator,
    PublicKey,
    ValidatorUpdate,
    ConsensusParams,
    BlockParams,
    EvidenceParams,
    Duration,
    ValidatorParams,
    VersionParams,
    AuthInfo,
    SignerInfo,
    ModeInfo,
    ModeInfoSingle,
    ModeInfoMulti,
    CompactBitArray,
    Fee,
    Coin,
    Tip,
}

/// What the value of a field is.
#[derive(Debug, Clone, Copy, PartialEq, Eq, Structural)]
pub enum FieldType {
    Number,
    Text,
    Bytes,
    Message(Kind),
    /// A message that is checked and stays encoded.
    Encoded(Kind),
    /// Not a field of the message: its value is passed over.
    Unknown,
}

/// The type and the name of the field with a given tag in messages of a given kind. The
/// alternatives of a choice share the name of the choice.
#[verifier::opaque]
pub open spec fn field(kind: Kind, tag: u32) -> (FieldType, &'static str) {
    match kind {
        Kind::Block => match tag {
            1 => (FieldType::Message(Kind::Header), "header"),
            2 => (FieldType::Encoded(Kind::EvidenceList), "evidence"),
            3 => (FieldType::Encoded(Kind::Commit), "last_commit"),
            4 => (FieldType::Message(Kind::ResponseBeginBlock), "result_begin_block"),
            5 => (FieldType::Message(Kind::ResponseEndBlock), "result_end_block"),
            7 => (FieldType::Message(Kind::TxResult), "transactions"),
            8 => (FieldType::Encoded(Kind::Validator), "validator_updates"),
            _ => (FieldType::Unknown, ""),
        },
        Kind::Header => match tag {
            1 => (FieldType::Message(Kind::Consensus), "version"),
            2 => (FieldType::Text, "chain_id"),
            3 => (FieldType::Number, "height"),
            4 => (FieldType::Message(Kind::Timestamp), "time"),
            5 => (FieldType::Message(Kind::BlockId), "last_block_id"),
            6 => (FieldType::Bytes, "last_commit_hash"),
            7 => (FieldType::Bytes, "data_hash"),
            8 => (FieldType::Bytes, "validators_hash"),
            9 => (FieldType::Bytes, "next_validators_hash"),
            10 => (FieldType::Bytes, "consensus_hash"),
            11 => (FieldType::Bytes, "app_hash"),
            12 => (FieldType::Bytes, "last_results_hash"),
            13 => (FieldType::Bytes, "evidence_hash"),
            14 => (FieldType::Bytes, "proposer_address"),
            15 => (FieldType::Bytes, "hash"),
            _ => (FieldType::Unknown, ""),
        },
        Kind::Consensus => match tag {
            1 => (FieldType::Number, "block"),
            2 => (FieldType::Number, "app"),
            _ => (FieldType::Unknown, ""),
        },
        Kind::Timestamp => match tag {
            1 => (FieldType::Number, "seconds"),
            2 => (FieldType::Number, "nanos"),
            _ => (FieldType::Unknown, ""),
        },
        Kind::BlockId => match tag {
            1 => (FieldType::Bytes, "hash"),
            2 => (FieldType::Message(Kind::PartSetHeader), "part_set_header"),
            _ => (FieldType::Unknown, ""),
        },
        Kind::PartSetHeader => match tag {
            1 => (FieldType::Number, "total"),
            2 => (FieldType::Bytes, "hash"),
            _ => (FieldType::Unknown, ""),
        },
        Kind::ResponseBeginBlock => match tag {
            1 => (FieldType::Message(Kind::Event), "events"),
            _ => (FieldType::Unknown, ""),
        },
        Kind::ResponseEndBlock => match tag {
            1 => (FieldType::Encoded(Kind::ValidatorUpdate), "validator_updates"),
            2 => (FieldType::Encoded(Kind::ConsensusParams), "consensus_param_updates"),
            3 => (FieldType::Message(Kind::Event), "events"),
            _ => (FieldType::Unknown, ""),
        },
        Kind::Event => match tag {
            1 => (FieldType::Text, "event_type"),
            2 => (FieldType::Message(Kind::EventAttribute), "attributes"),
            _ => (FieldType::Unknown, ""),
        },
        Kind::EventAttribute => match tag {
            1 => (FieldType::Text, "key"),
            2 => (FieldType::Text, "value"),
            3 => (FieldType::Number, "index"),
            _ => (FieldType::Unknown, ""),
        },
        Kind::TxResult => match tag {
            1 => (FieldType::Number, "height"),
            2 => (FieldType::Number, "index"),
            3 => (FieldType::Message(Kind::Tx), "tx"),
            4 => (FieldType::Message(Kind::ResponseDeliverTx), "result"),
            5 => (FieldType::Bytes, "hash"),
            _ => (FieldType::Unknown, ""),
        },
        Kind::Tx => match tag {
            1 => (FieldType::Message(Kind::TxBody), "body"),
            2 => (FieldType::Encoded(Kind::AuthInfo), "auth_info"),
            3 => (FieldType::Bytes, "signatures"),
            _ => (FieldType::Unknown, ""),
        },
        Kind::TxBody => match tag {
            1 => (FieldType::Message(Kind::Any), "messages"),
            2 => (FieldType::Text, "memo"),
            3 => (FieldType::Number, "timeout_height"),
            1023 => (FieldType::Message(Kind::Any), "extension_options"),
            2047 => (FieldType::Message(Kind::Any), "non_critical_extension_options"),
            _ => (FieldType::Unknown, ""),
        },
        Kind::Any => match tag {
            1 => (FieldType::Text, "type_url"),
            2 => (FieldType::Bytes, "value"),
            _ => (FieldType::Unknown, ""),
        },
        Kind::ResponseDeliverTx => match tag {
            1 => (FieldType::Number, "code"),
            2 => (FieldType::Bytes, "data"),
            3 => (FieldType::Text, "log"),
            4 => (FieldType::Text, "info"),
            5 => (FieldType::Number, "gas_wanted"),
            6 => (FieldType::Number, "gas_used"),
            7 => (FieldType::Message(Kind::Event), "events"),
            8 => (FieldType::Text, "codespace"),
            _ => (FieldType::Unknown, ""),
        },
        Kind::EvidenceList => match tag {
            1 => (FieldType::Message(Kind::Evidence), "evidence"),
            _ => (FieldType::Unknown, ""),
        },
        Kind::Evidence => match tag {
            1 => (FieldType::Message(Kind::DuplicateVoteEvidence), "sum"),
            2 => (FieldType::Message(Kind::LightClientAttackEvidence), "sum"),
            _ => (FieldType::Unknown, ""),
        },
        Kind::DuplicateVoteEvidence => match tag {
            1 => (FieldType::Message(Kind::EventVote), "vote_a"),
            2 => (FieldType::Message(Kind::EventVote), "vote_b"),
            3 => (FieldType::Number, "total_voting_power"),
            4 => (FieldType::Number, "validator_power"),
            5 => (FieldType::Message(Kind::Timestamp), "timestamp"),
            _ => (FieldType::Unknown, ""),
        },
        Kind::EventVote => match tag {
            1 => (FieldType::Number, "event_vote_type"),
            2 => (FieldType::Number, "height"),
            3 => (FieldType::Number, "round"),
            4 => (FieldType::Message(Kind::BlockId), "block_id"),
            5 => (FieldType::Message(Kind::Timestamp), "timestamp"),
            6 => (FieldType::Bytes, "validator_address"),
            7 => (FieldType::Number, "validator_index"),
            8 => (FieldType::Bytes, "signature"),
            _ => (FieldType::Unknown, ""),
        },
        Kind::LightClientAttackEvidence => match tag {
            1 => (FieldType::Message(Kind::LightBlock), "conflicting_block"),
            2 => (FieldType::Number, "common_height"),
            3 => (FieldType::Message(Kind::Validator), "byzantine_validators"),
            4 => (FieldType::Number, "total_voting_power"),
            5 => (FieldType::Message(Kind::Timestamp), "timestamp"),
            _ => (FieldType::Unknown, ""),
        },
        Kind::LightBlock => match tag {
            1 => (FieldType::Message(Kind::SignedHeader), "signed_header"),
            2 => (FieldType::Message(Kind::ValidatorSet), "validator_set"),
            _ => (FieldType::Unknown, ""),
        },
        Kind::SignedHeader => match tag {
            1 => (FieldType::Message(Kind::Header), "header"),
            2 => (FieldType::Message(Kind::Commit), "commit"),
            _ => (FieldType::Unknown, ""),
        },
        Kind::Commit => match tag {
            1 => (FieldType::Number, "height"),
            2 => (FieldType::Number, "round"),
            3 => (FieldType::Message(Kind::BlockId), "block_id"),
            4 => (FieldType::Message(Kind::CommitSig), "signatures"),
            _ => (FieldType::Unknown, ""),
        },
        Kind::CommitSig => match tag {
            1 => (FieldType::Number, "block_id_flag"),
            2 => (FieldType::Bytes, "validator_address"),
            3 => (FieldType::Message(Kind::Timestamp), "timestamp"),
            4 => (FieldType::Bytes, "signature"),
            _ => (FieldType::Unknown, ""),
        },
        Kind::ValidatorSet => match tag {
            1 => (FieldType::Message(Kind::Validator), "validators"),
            2 => (FieldType::Message(Kind::Validator), "proposer"),
            3 => (FieldType::Number, "total_voting_power"),
            _ => (FieldType::Unknown, ""),
        },
        Kind::Validator => match tag {
            1 => (FieldType::Bytes, "address"),
            2 => (FieldType::Message(Kind::PublicKey), "pub_key"),
            3 => (FieldType::Number, "voting_power"),
            4 => (FieldType::Number, "proposer_priority"),
            _ => (FieldType::Unknown, ""),
        },
        Kind::PublicKey => match tag {
            1 => (FieldType::Bytes, "sum"),
            2 => (FieldType::Bytes, "sum"),
            _ => (FieldType::Unknown, ""),
        },
        Kind::ValidatorUpdate => match tag {
            1 => (FieldType::Bytes, "address"),
            2 => (FieldType::Message(Kind::PublicKey), "pub_key"),
            3 => (FieldType::Number, "power"),
            _ => (FieldType::Unknown, ""),
        },
        Kind::ConsensusParams => match tag {
            1 => (FieldType::Message(Kind::BlockParams), "block"),
            2 => (FieldType::Message(Kind::EvidenceParams), "evidence"),
            3 => (FieldType::Message(Kind::ValidatorParams), "validator"),
            4 => (FieldType::Message(Kind::VersionParams), "version"),
            _ => (FieldType::Unknown, ""),
        },
        Kind::BlockParams => match tag {
            1 => (FieldType::Number, "max_bytes"),
            2 => (FieldType::Number, "max_gas"),
            _ => (FieldType::Unknown, ""),
        },
        Kind::EvidenceParams => match tag {
            1 => (FieldType::Number, "max_age_num_blocks"),
            2 => (FieldType::Message(Kind::Duration), "max_age_duration"),
            3 => (FieldType::Number, "max_bytes"),
            _ => (FieldType::Unknown, ""),
        },
        Kind::Duration => match tag {
            1 => (FieldType::Number, "seconds"),
            2 => (FieldType::Number, "nanos"),
            _ => (FieldType::Unknown, ""),
        },
        Kind::ValidatorParams => match tag {
            1 => (FieldType::Text, "pub_key_types"),
            _ => (FieldType::Unknown, ""),
        },
        Kind::VersionParams => match tag {
            1 => (FieldType::Number, "app_version"),
            _ => (FieldType::Unknown, ""),
        },
        Kind::AuthInfo => match tag {
            1 => (FieldType::Message(Kind::SignerInfo), "signer_infos"),
            2 => (FieldType::Message(Kind::Fee), "fee"),
            3 => (FieldType::Message(Kind::Tip), "tip"),
            _ => (FieldType::Unknown, ""),
        },
        Kind::SignerInfo => match tag {
            1 => (FieldType::Message(Kind::Any), "public_key"),
            2 => (FieldType::Message(Kind::ModeInfo), "mode_info"),
            3 => (FieldType::Number, "sequence"),
            _ => (FieldType::Unknown, ""),
        },
        Kind::ModeInfo => match tag {
            1 => (FieldType::Message(Kind::ModeInfoSingle), "sum"),
            2 => (FieldType::Message(Kind::ModeInfoMulti), "sum"),
            _ => (FieldType::Unknown, ""),
        },
        Kind::ModeInfoSingle => match tag {
            1 => (FieldType::Number, "mode"),
            _ => (FieldType::Unknown, ""),
        },
        Kind::ModeInfoMulti => match tag {
            1 => (FieldType::Message(Kind::CompactBitArray), "bitarray"),
            2 => (FieldType::Message(Kind::ModeInfo), "mode_infos"),
            _ => (FieldType::Unknown, ""),
        },
        Kind::CompactBitArray => match tag {
            1 => (FieldType::Number, "extra_bits_stored"),
            2 => (FieldType::Bytes, "elems"),
            _ => (FieldType::Unknown, ""),
        },
        Kind::Fee => match tag {
            1 => (FieldType::Message(Kind::Coin), "amount"),
            2 => (FieldType::Number, "gas_limit"),
            3 => (FieldType::Text, "payer"),
            4 => (FieldType::Text, "granter"),
            _ => (FieldType::Unknown, ""),
        },
        Kind::Coin => match tag {
            1 => (FieldType::Text, "denom"),
            2 => (FieldType::Text, "amount"),
            _ => (FieldType::Unknown, ""),
        },
        Kind::Tip => match tag {
            1 => (FieldType::Message(Kind::Coin), "amount"),
            2 => (FieldType::Text, "tipper"),
            _ => (FieldType::Unknown, ""),
        },
    }
}

/// Looks up the type and the name of a field.
fn find_field(kind: Kind, tag: u32) -> (res: (FieldType, &'static str))
    ensures
        res == field(kind, tag),
{
    proof {
        reveal(field);
    }
    match kind {
        Kind::Block => match tag {
            1 => (FieldType::Message(Kind::Header), "header"),
            2 => (FieldType::Encoded(Kind::EvidenceList), "evidence"),
            3 => (FieldType::Encoded(Kind::Commit), "last_commit"),
            4 => (FieldType::Message(Kind::ResponseBeginBlock), "result_begin_block"),
            5 => (FieldType::Message(Kind::ResponseEndBlock), "result_end_block"),
            7 => (FieldType::Message(Kind::TxResult), "transactions"),
            8 => (FieldType::Encoded(Kind::Validator), "validator_updates"),
            _ => (FieldType::Unknown, ""),
        },
        Kind::Header => match tag {
            1 => (FieldType::Message(Kind::Consensus), "version"),
            2 => (FieldType::Text, "chain_id"),
            3 => (FieldType::Number, "height"),
            4 => (FieldType::Message(Kind::Timestamp), "time"),
            5 => (FieldType::Message(Kind::BlockId), "last_block_id"),
            6 => (FieldType::Bytes, "last_commit_hash"),
            7 => (FieldType::Bytes, "data_hash"),
            8 => (FieldType::Bytes, "validators_hash"),
            9 => (FieldType::Bytes, "next_validators_hash"),
            10 => (FieldType::Bytes, "consensus_hash"),
            11 => (FieldType::Bytes, "app_hash"),
            12 => (FieldType::Bytes, "last_results_hash"),
            13 => (FieldType::Bytes, "evidence_hash"),
            14 => (FieldType::Bytes, "proposer_address"),
            15 => (FieldType::Bytes, "hash"),
            _ => (FieldType::Unknown, ""),
        },
        Kind::Consensus => match tag {
            1 => (FieldType::Number, "block"),
            2 => (FieldType::Number, "app"),
            _ => (FieldType::Unknown, ""),
        },
        Kind::Timestamp => match tag {
            1 => (FieldType::Number, "seconds"),
            2 => (FieldType::Number, "nanos"),
            _ => (FieldType::Unknown, ""),
        },
        Kind::BlockId => match tag {
            1 => (FieldType::Bytes, "hash"),
            2 => (FieldType::Message(Kind::PartSetHeader), "part_set_header"),
            _ => (FieldType::Unknown, ""),
        },
        Kind::PartSetHeader => match tag {
            1 => (FieldType::Number, "total"),
            2 => (FieldType::Bytes, "hash"),
            _ => (FieldType::Unknown, ""),
        },
        Kind::ResponseBeginBlock => match tag {
            1 => (FieldType::Message(Kind::Event), "events"),
            _ => (FieldType::Unknown, ""),
        },
        Kind::ResponseEndBlock => match tag {
            1 => (FieldType::Encoded(Kind::ValidatorUpdate), "validator_updates"),
            2 => (FieldType::Encoded(Kind::ConsensusParams), "consensus_param_updates"),
            3 => (FieldType::Message(Kind::Event), "events"),
            _ => (FieldType::Unknown, ""),
        },
        Kind::Event => match tag {
            1 => (FieldType::Text, "event_type"),
            2 => (FieldType::Message(Kind::EventAttribute), "attributes"),
            _ => (FieldType::Unknown, ""),
        },
        Kind::EventAttribute => match tag {
            1 => (FieldType::Text, "key"),
            2 => (FieldType::Text, "value"),
            3 => (FieldType::Number, "index"),
            _ => (FieldType::Unknown, ""),
        },
        Kind::TxResult => match tag {
            1 => (FieldType::Number, "height"),
            2 => (FieldType::Number, "index"),
            3 => (FieldType::Message(Kind::Tx), "tx"),
            4 => (FieldType::Message(Kind::ResponseDeliverTx), "result"),
            5 => (FieldType::Bytes, "hash"),
            _ => (FieldType::Unknown, ""),
        },
        Kind::Tx => match tag {
            1 => (FieldType::Message(Kind::TxBody), "body"),
            2 => (FieldType::Encoded(Kind::AuthInfo), "auth_info"),
            3 => (FieldType::Bytes, "signatures"),
            _ => (FieldType::Unknown, ""),
        },
        Kind::TxBody => match tag {
            1 => (FieldType::Message(Kind::Any), "messages"),
            2 => (FieldType::Text, "memo"),
            3 => (FieldType::Number, "timeout_height"),
            1023 => (FieldType::Message(Kind::Any), "extension_options"),
            2047 => (FieldType::Message(Kind::Any), "non_critical_extension_options"),
            _ => (FieldType::Unknown, ""),
        },
        Kind::Any => match tag {
            1 => (FieldType::Text, "type_url"),
            2 => (FieldType::Bytes, "value"),
            _ => (FieldType::Unknown, ""),
        },
        Kind::ResponseDeliverTx => match tag {
            1 => (FieldType::Number, "code"),
            2 => (FieldType::Bytes, "data"),
            3 => (FieldType::Text, "log"),
            4 => (FieldType::Text, "info"),
            5 => (FieldType::Number, "gas_wanted"),
            6 => (FieldType::Number, "gas_used"),
            7 => (FieldType::Message(Kind::Event), "events"),
            8 => (FieldType::Text, "codespace"),
            _ => (FieldType::Unknown, ""),
        },
        Kind::EvidenceList => match tag {
            1 => (FieldType::Message(Kind::Evidence), "evidence"),
            _ => (FieldType::Unknown, ""),
        },
        Kind::Evidence => match tag {
            1 => (FieldType::Message(Kind::DuplicateVoteEvidence), "sum"),
            2 => (FieldType::Message(Kind::LightClientAttackEvidence), "sum"),
            _ => (FieldType::Unknown, ""),
        },
        Kind::DuplicateVoteEvidence => match tag {
            1 => (FieldType::Message(Kind::EventVote), "vote_a"),
            2 => (FieldType::Message(Kind::EventVote), "vote_b"),
            3 => (FieldType::Number, "total_voting_power"),
            4 => (FieldType::Number, "validator_power"),
            5 => (FieldType::Message(Kind::Timestamp), "timestamp"),
            _ => (FieldType::Unknown, ""),
        },
        Kind::EventVote => match tag {
            1 => (FieldType::Number, "event_vote_type"),
            2 => (FieldType::Number, "height"),
            3 => (FieldType::Number, "round"),
            4 => (FieldType::Message(Kind::BlockId), "block_id"),
            5 => (FieldType::Message(Kind::Timestamp), "timestamp"),
            6 => (FieldType::Bytes, "validator_address"),
            7 => (FieldType::Number, "validator_index"),
            8 => (FieldType::Bytes, "signature"),
            _ => (FieldType::Unknown, ""),
        },
        Kind::LightClientAttackEvidence => match tag {
            1 => (FieldType::Message(Kind::LightBlock), "conflicting_block"),
            2 => (FieldType::Number, "common_height"),
            3 => (FieldType::Message(Kind::Validator), "byzantine_validators"),
            4 => (FieldType::Number, "total_voting_power"),
            5 => (FieldType::Message(Kind::Timestamp), "timestamp"),
            _ => (FieldType::Unknown, ""),
        },
        Kind::LightBlock => match tag {
            1 => (FieldType::Message(Kind::SignedHeader), "signed_header"),
            2 => (FieldType::Message(Kind::ValidatorSet), "validator_set"),
            _ => (FieldType::Unknown, ""),
        },
        Kind::SignedHeader => match tag {
            1 => (FieldType::Message(Kind::Header), "header"),
            2 => (FieldType::Message(Kind::Commit), "commit"),
            _ => (FieldType::Unknown, ""),
        },
        Kind::Commit => match tag {
            1 => (FieldType::Number, "height"),
            2 => (FieldType::Number, "round"),
            3 => (FieldType::Message(Kind::BlockId), "block_id"),
            4 => (FieldType::Message(Kind::CommitSig), "signatures"),
            _ => (FieldType::Unknown, ""),
        },
        Kind::CommitSig => match tag {
            1 => (FieldType::Number, "block_id_flag"),
            2 => (FieldType::Bytes, "validator_address"),
            3 => (FieldType::Message(Kind::Timestamp), "timestamp"),
            4 => (FieldType::Bytes, "signature"),
            _ => (FieldType::Unknown, ""),
        },
        Kind::ValidatorSet => match tag {
            1 => (FieldType::Message(Kind::Validator), "validators"),
            2 => (FieldType::Message(Kind::Validator), "proposer"),
            3 => (FieldType::Number, "total_voting_power"),
            _ => (FieldType::Unknown, ""),
        },
        Kind::Validator => match tag {
            1 => (FieldType::Bytes, "address"),
            2 => (FieldType::Message(Kind::PublicKey), "pub_key"),
            3 => (FieldType::Number, "voting_power"),
            4 => (FieldType::Number, "proposer_priority"),
            _ => (FieldType::Unknown, ""),
        },
        Kind::PublicKey => match tag {
            1 => (FieldType::Bytes, "sum"),
            2 => (FieldType::Bytes, "sum"),
            _ => (FieldType::Unknown, ""),
        },
        Kind::ValidatorUpdate => match tag {
            1 => (FieldType::Bytes, "address"),
            2 => (FieldType::Message(Kind::PublicKey), "pub_key"),
            3 => (FieldType::Number, "power"),
            _ => (FieldType::Unknown, ""),
        },
        Kind::ConsensusParams => match tag {
            1 => (FieldType::Message(Kind::BlockParams), "block"),
            2 => (FieldType::Message(Kind::EvidenceParams), "evidence"),
            3 => (FieldType::Message(Kind::ValidatorParams), "validator"),
            4 => (FieldType::Message(Kind::VersionParams), "version"),
            _ => (FieldType::Unknown, ""),
        },
        Kind::BlockParams => match tag {
            1 => (FieldType::Number, "max_bytes"),
            2 => (FieldType::Number, "max_gas"),
            _ => (FieldType::Unknown, ""),
        },
        Kind::EvidenceParams => match tag {
            1 => (FieldType::Number, "max_age_num_blocks"),
            2 => (FieldType::Message(Kind::Duration), "max_age_duration"),
            3 => (FieldType::Number, "max_bytes"),
            _ => (FieldType::Unknown, ""),
        },
        Kind::Duration => match tag {
            1 => (FieldType::Number, "seconds"),
            2 => (FieldType::Number, "nanos"),
            _ => (FieldType::Unknown, ""),
        },
        Kind::ValidatorParams => match tag {
            1 => (FieldType::Text, "pub_key_types"),
            _ => (FieldType::Unknown, ""),
        },
        Kind::VersionParams => match tag {
            1 => (FieldType::Number, "app_version"),
            _ => (FieldType::Unknown, ""),
        },
        Kind::AuthInfo => match tag {
            1 => (FieldType::Message(Kind::SignerInfo), "signer_infos"),
            2 => (FieldType::Message(Kind::Fee), "fee"),
            3 => (FieldType::Message(Kind::Tip), "tip"),
            _ => (FieldType::Unknown, ""),
        },
        Kind::SignerInfo => match tag {
            1 => (FieldType::Message(Kind::Any), "public_key"),
            2 => (FieldType::Message(Kind::ModeInfo), "mode_info"),
            3 => (FieldType::Number, "sequence"),
            _ => (FieldType::Unknown, ""),
        },
        Kind::ModeInfo => match tag {
            1 => (FieldType::Message(Kind::ModeInfoSingle), "sum"),
            2 => (FieldType::Message(Kind::ModeInfoMulti), "sum"),
            _ => (FieldType::Unknown, ""),
        },
        Kind::ModeInfoSingle => match tag {
            1 => (FieldType::Number, "mode"),
            _ => (FieldType::Unknown, ""),
        },
        Kind::ModeInfoMulti => match tag {
            1 => (FieldType::Message(Kind::CompactBitArray), "bitarray"),
            2 => (FieldType::Message(Kind::ModeInfo), "mode_infos"),
            _ => (FieldType::Unknown, ""),
        },
        Kind::CompactBitArray => match tag {
            1 => (FieldType::Number, "extra_bits_stored"),
            2 => (FieldType::Bytes, "elems"),
            _ => (FieldType::Unknown, ""),
        },
        Kind::Fee => match tag {
            1 => (FieldType::Message(Kind::Coin), "amount"),
            2 => (FieldType::Number, "gas_limit"),
            3 => (FieldType::Text, "payer"),
            4 => (FieldType::Text, "granter"),
            _ => (FieldType::Unknown, ""),
        },
        Kind::Coin => match tag {
            1 => (FieldType::Text, "denom"),
            2 => (FieldType::Text, "amount"),
            _ => (FieldType::Unknown, ""),
        },
        Kind::Tip => match tag {
            1 => (FieldType::Message(Kind::Coin), "amount"),
            2 => (FieldType::Text, "tipper"),
            _ => (FieldType::Unknown, ""),
        },
    }
}

/// The type of the field with a given tag in messages of a given kind.
pub open spec fn field_type(kind: Kind, tag: u32) -> FieldType {
    field(kind, tag).0
}

/// Looks up the type of the field with a given tag in messages of a given kind.
pub fn find_field_type(kind: Kind, tag: u32) -> (res: FieldType)
    ensures
        res == field_type(kind, tag),
{
    find_field(kind, tag).0
}

/// The name of the field with a given tag in messages of a given kind; empty if there is none.
pub open spec fn field_name(kind: Kind, tag: u32) -> &'static str {
    field(kind, tag).1
}

/// Looks up the name of the field with a given tag in messages of a given kind.
pub fn find_field_name(kind: Kind, tag: u32) -> (res: &'static str)
    ensures
        res == field_name(kind, tag),
{
    find_field(kind, tag).1
}

/// The name of the messages of a given kind.
pub open spec fn message_name(kind: Kind) -> &'static str {
    match kind {
        Kind::Block => "Block",
        Kind::Header => "Header",
        Kind::Consensus => "Consensus",
        Kind::Timestamp => "Timestamp",
        Kind::BlockId => "BlockId",
        Kind::PartSetHeader => "PartSetHeader",
        Kind::ResponseBeginBlock => "ResponseBeginBlock",
        Kind::ResponseEndBlock => "ResponseEndBlock",
        Kind::Event => "Event",
        Kind::EventAttribute => "EventAttribute",
        Kind::TxResult => "TxResult",
        Kind::Tx => "Tx",
        Kind::TxBody => "TxBody",
        Kind::Any => "Any",
        Kind::ResponseDeliverTx => "ResponseDeliverTx",
        Kind::EvidenceList => "EvidenceList",
        Kind::Evidence => "Evidence",
        Kind::DuplicateVoteEvidence => "DuplicateVoteEvidence",
        Kind::EventVote => "EventVote",
        Kind::LightClientAttackEvidence => "LightClientAttackEvidence",
        Kind::LightBlock => "LightBlock",
        Kind::SignedHeader => "SignedHeader",
        Kind::Commit => "Commit",
        Kind::CommitSig => "CommitSig",
        Kind::ValidatorSet => "ValidatorSet",
        Kind::Validator => "Validator",
        Kind::PublicKey => "PublicKey",
        Kind::ValidatorUpdate => "ValidatorUpdate",
        Kind::ConsensusParams => "ConsensusParams",
        Kind::BlockParams => "BlockParams",
        Kind::EvidenceParams => "EvidenceParams",
        Kind::Duration => "Duration",
        Kind::ValidatorParams => "ValidatorParams",
        Kind::VersionParams => "VersionParams",
        Kind::AuthInfo => "AuthInfo",
        Kind::SignerInfo => "SignerInfo",
        Kind::ModeInfo => "ModeInfo",
        Kind::ModeInfoSingle => "ModeInfoSingle",
        Kind::ModeInfoMulti => "ModeInfoMulti",
        Kind::CompactBitArray => "CompactBitArray",
        Kind::Fee => "Fee",
        Kind::Coin => "Coin",
        Kind::Tip => "Tip",
    }
}

/// Looks up the name of the messages of a given kind.
pub fn find_message_name(kind: Kind) -> (res: &'static str)
    ensures
        res == message_name(kind),
{
    match kind {
        Kind::Block => "Block",
        Kind::Header => "Header",
        Kind::Consensus => "Consensus",
        Kind::Timestamp => "Timestamp",
        Kind::BlockId => "BlockId",
        Kind::PartSetHeader => "PartSetHeader",
        Kind::ResponseBeginBlock => "ResponseBeginBlock",
        Kind::ResponseEndBlock => "ResponseEndBlock",
        Kind::Event => "Event",
        Kind::EventAttribute => "EventAttribute",
        Kind::TxResult => "TxResult",
        Kind::Tx => "Tx",
        Kind::TxBody => "TxBody",
        Kind::Any => "Any",
        Kind::ResponseDeliverTx => "ResponseDeliverTx",
        Kind::EvidenceList => "EvidenceList",
        Kind::Evidence => "Evidence",
        Kind::DuplicateVoteEvidence => "DuplicateVoteEvidence",
        Kind::EventVote => "EventVote",
        Kind::LightClientAttackEvidence => "LightClientAttackEvidence",
        Kind::LightBlock => "LightBlock",
        Kind::SignedHeader => "SignedHeader",
        Kind::Commit => "Commit",
        Kind::CommitSig => "CommitSig",
        Kind::ValidatorSet => "ValidatorSet",
        Kind::Validator => "Validator",
        Kind::PublicKey => "PublicKey",
        Kind::ValidatorUpdate => "ValidatorUpdate",
        Kind::ConsensusParams => "ConsensusParams",
        Kind::BlockParams => "BlockParams",
        Kind::EvidenceParams => "EvidenceParams",
        Kind::Duration => "Duration",
        Kind::ValidatorParams => "ValidatorParams",
        Kind::VersionParams => "VersionParams",
        Kind::AuthInfo => "AuthInfo",
        Kind::SignerInfo => "SignerInfo",
        Kind::ModeInfo => "ModeInfo",
        Kind::ModeInfoSingle => "ModeInfoSingle",
        Kind::ModeInfoMulti => "ModeInfoMulti",
        Kind::CompactBitArray => "CompactBitArray",
        Kind::Fee => "Fee",
        Kind::Coin => "Coin",
        Kind::Tip => "Tip",
    }
}

} // verus!
