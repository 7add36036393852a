//! Decoding of hand-made bytes.

use graph_chain_cosmos::codec::Block;
use graph_chain_cosmos::fields::{read_fields, Value};
use graph_chain_cosmos::schema::{find_field_type, FieldType, Kind};

/// The bytes of a field whose value follows its length. Tags and lengths are below 16 and 128.
fn delimited(tag: u8, value: &[u8]) -> Vec<u8> {
    let mut bytes = vec![(tag << 3) | 2, value.len() as u8];
    bytes.extend_from_slice(value);
    bytes
}

fn decode_header(header: &[u8]) -> Option<graph_chain_cosmos::codec::Header> {
    match Block::decode(&delimited(1, header)) {
        Ok(block) => Some(block.header.unwrap()),
        Err(_) => None,
    }
}

fn height(header: &[u8]) -> Option<u64> {
    decode_header(header).map(|header| header.height)
}

/// What is wrong with bytes that are not a block.
fn error(bytes: &[u8]) -> String {
    let text = Block::decode(bytes).unwrap_err().to_string();
    let details = text.strip_prefix("failed to decode Protobuf message: ");
    details.unwrap().to_string()
}

#[test]
fn empty_bytes_are_an_empty_block() {
    let block = Block::decode(&[]).unwrap();
    assert_eq!(
        block,
        Block {
            header: None,
            evidence: None,
            last_commit: None,
            result_begin_block: None,
            result_end_block: None,
            transactions: vec![],
            validator_updates: vec![],
        }
    );
}

#[test]
fn numbers() {
    assert_eq!(height(&[]), Some(0));
    assert_eq!(height(&[0x18, 0x00]), Some(0));
    assert_eq!(height(&[0x18, 0x7f]), Some(127));
    assert_eq!(height(&[0x18, 0x80, 0x01]), Some(128));
    assert_eq!(height(&[0x18, 0xbf, 0xf1, 0xff, 0x06]), Some(14678207));
    // Padding with zero bits is accepted.
    assert_eq!(height(&[0x18, 0x85, 0x80, 0x00]), Some(5));
    let mut longest = vec![0x18];
    longest.extend_from_slice(&[0xff; 9]);
    longest.push(0x01);
    assert_eq!(height(&longest), Some(u64::MAX));
    *longest.last_mut().unwrap() = 0x02;
    assert_eq!(height(&longest), None);
    *longest.last_mut().unwrap() = 0x81;
    assert_eq!(height(&longest), None);
    longest.push(0x00);
    assert_eq!(height(&longest), None);
    assert_eq!(height(&[0x18]), None);
    assert_eq!(height(&[0x18, 0x80]), None);
}

#[test]
fn keys() {
    // Tag zero.
    assert_eq!(height(&[0x00, 0x01]), None);
    // Encoding types six and seven.
    assert_eq!(height(&[0x1e, 0x01]), None);
    assert_eq!(height(&[0x1f, 0x01]), None);
    // A key that does not fit in 32 bits.
    assert_eq!(height(&[0x98, 0x80, 0x80, 0x80, 0x10, 0x01]), None);
    // The same field with a padded key.
    assert_eq!(height(&[0x98, 0x00, 0x09]), Some(9));
    // A number, and a text, of the wrong encoding type.
    assert_eq!(height(&[0x1a, 0x01, 0x05]), None);
    assert_eq!(height(&[0x10, 0x01]), None);
    // A message of the wrong encoding type.
    assert!(Block::decode(&[0x08, 0x01]).is_err());
}

#[test]
fn texts_and_bytes() {
    let header = decode_header(&delimited(2, "caf\u{e9} \u{1d11e}".as_bytes())).unwrap();
    assert_eq!(header.chain_id, "caf\u{e9} \u{1d11e}");
    assert!(decode_header(&delimited(2, &[0xc3, 0x28])).is_none());
    assert!(decode_header(&delimited(2, &[0xed, 0xa0, 0x80])).is_none());
    let header = decode_header(&delimited(15, &[0xc3, 0x28])).unwrap();
    assert_eq!(header.hash, vec![0xc3, 0x28]);
    // Longer than what is left.
    assert!(decode_header(&[0x12, 0x02, 0x61]).is_none());
    assert!(decode_header(&[0x7a, 0x02, 0x61]).is_none());
}

#[test]
fn last_value_counts() {
    assert_eq!(height(&[0x18, 0x07, 0x18, 0x08]), Some(8));
    let mut twice = delimited(2, b"first");
    twice.extend(delimited(2, b"second"));
    twice.extend(delimited(6, &[1]));
    twice.extend(delimited(6, &[]));
    let header = decode_header(&twice).unwrap();
    assert_eq!(header.chain_id, "second");
    assert_eq!(header.last_commit_hash, Vec::<u8>::new());
}

#[test]
fn messages_are_merged() {
    let mut bytes = delimited(1, &delimited(2, b"test"));
    bytes.extend(delimited(1, &[0x18, 0x05]));
    let header = Block::decode(&bytes).unwrap().header.unwrap();
    assert_eq!(header.chain_id, "test");
    assert_eq!(header.height, 5);
    // Each of the parts has to be a message of its own.
    let mut broken = delimited(1, &[0x18]);
    broken.extend(delimited(1, &[0x05]));
    assert!(Block::decode(&broken).is_err());
    // Encoded parts are joined.
    let mut bytes = delimited(2, &[0x0a, 0x00]);
    bytes.extend(delimited(2, &[0x0a, 0x02, 0x0a, 0x00]));
    let block = Block::decode(&bytes).unwrap();
    assert_eq!(block.evidence, Some(vec![0x0a, 0x00, 0x0a, 0x02, 0x0a, 0x00]));
}

#[test]
fn repeated_fields_are_collected() {
    let mut bytes = delimited(7, &[0x10, 0x02]);
    bytes.extend(delimited(8, &[0x0a, 0x01, 9]));
    bytes.extend(delimited(7, &[0x10, 0x03]));
    bytes.extend(delimited(8, &[]));
    let block = Block::decode(&bytes).unwrap();
    assert_eq!(block.transactions.len(), 2);
    assert_eq!(block.transactions[0].index, 2);
    assert_eq!(block.transactions[1].index, 3);
    assert_eq!(block.validator_updates, vec![vec![0x0a, 0x01, 9], vec![]]);
}

#[test]
fn narrow_numbers_are_cut() {
    // 2^32 + 5 as a transaction index.
    let bytes = delimited(7, &[0x10, 0x85, 0x80, 0x80, 0x80, 0x10]);
    assert_eq!(Block::decode(&bytes).unwrap().transactions[0].index, 5);
    // -1 as the gas used.
    let mut result = vec![0x30];
    result.extend_from_slice(&[0xff; 9]);
    result.push(0x01);
    let bytes = delimited(7, &delimited(4, &result));
    let block = Block::decode(&bytes).unwrap();
    assert_eq!(block.transactions[0].result.as_ref().unwrap().gas_used, -1);
    // Two as the flag of an attribute.
    let attribute = delimited(2, &[0x18, 0x02]);
    let block = Block::decode(&delimited(4, &delimited(1, &attribute))).unwrap();
    assert!(block.begin_block_events().unwrap()[0].attributes[0].index);
}

#[test]
fn unknown_fields_are_passed_over() {
    let behind = [0x18, 0x09];
    let unknown: [&[u8]; 6] = [
        // A number, eight bytes, bytes with their length, four bytes.
        &[0xa0, 0x01, 0x96, 0x01],
        &[0xa1, 0x01, 1, 2, 3, 4, 5, 6, 7, 8],
        &[0xa2, 0x01, 0x02, 0xff, 0xff],
        &[0xa5, 0x01, 1, 2, 3, 4],
        // A group with a number in it, and a group in a group.
        &[0xa3, 0x01, 0x08, 0x05, 0xa4, 0x01],
        &[0xa3, 0x01, 0x0b, 0x0c, 0xa4, 0x01],
    ];
    for bytes in unknown {
        let mut header = bytes.to_vec();
        header.extend_from_slice(&behind);
        assert_eq!(height(&header), Some(9), "{:?}", bytes);
        assert_eq!(height(&bytes[..bytes.len() - 1]), None, "{:?}", bytes);
    }
    // A group closed by another tag, and a closing key alone.
    assert_eq!(height(&[0xa3, 0x01, 0xac, 0x01]), None);
    assert_eq!(height(&[0xa4, 0x01]), None);
}

#[test]
fn nested_bytes_must_fit() {
    // The transaction claims three bytes, and its hash one byte more than that.
    assert_eq!(
        error(&[0x3a, 0x03, 0x2a, 0x02, 0x01, 0x02]),
        "Block.transactions: delimited length exceeded"
    );
    // The block ends with the fields in front of the last byte.
    let fields = read_fields(Kind::Consensus, &[0x08, 0x01, 0x10], 1, 1).unwrap();
    assert_eq!(fields.len(), 1);
}

#[test]
fn fields_by_kind() {
    let bytes = [0x0a, 0x01, 0x61, 0x12, 0x01, 0x62, 0x18, 0x01];
    let fields = read_fields(Kind::Any, &bytes, 0, 1).unwrap();
    assert_eq!(fields.len(), 2);
    assert_eq!(fields[0].tag, 1);
    assert!(matches!(&fields[0].value, Value::Text(text) if text == "a"));
    assert_eq!(fields[1].tag, 2);
    assert!(matches!(&fields[1].value, Value::Bytes(bytes) if bytes == b"b"));
    let fields = read_fields(Kind::TxResult, &[0x1a, 0x02, 0x0a, 0x00], 0, 2).unwrap();
    match &fields[0].value {
        Value::Message(content) => {
            assert_eq!(content.len(), 1);
            assert!(matches!(&content[0].value, Value::Message(body) if body.is_empty()));
        }
        other => panic!("unexpected value {:?}", other),
    }
    assert_eq!(find_field_type(Kind::TxBody, 1023), FieldType::Message(Kind::Any));
    assert_eq!(find_field_type(Kind::TxBody, 2047), FieldType::Message(Kind::Any));
    assert_eq!(find_field_type(Kind::Block, 6), FieldType::Unknown);
}

#[test]
fn encoded_parts_are_checked() {
    assert_eq!(error(&[0x12, 0x01, 0xff]), "Block.evidence: invalid varint");
    assert_eq!(
        error(&delimited(3, &[0x0a])),
        "Commit.height: Block.last_commit: invalid wire type: LengthDelimited (expected Varint)"
    );
    assert_eq!(
        error(&delimited(8, &[9])),
        "Validator.address: Block.validator_updates: invalid wire type: SixtyFourBit (expected LengthDelimited)"
    );
    assert_eq!(
        error(&delimited(5, &delimited(1, &[0x12, 0x01, 0x00]))),
        "ValidatorUpdate.pub_key: ResponseEndBlock.validator_updates: Block.result_end_block: invalid tag value: 0"
    );
    assert_eq!(
        error(&delimited(5, &delimited(2, &delimited(3, &delimited(1, &[0xc3, 0x28]))))),
        "ValidatorParams.pub_key_types: ConsensusParams.validator: ResponseEndBlock.consensus_param_updates: Block.result_end_block: invalid string value: data is not UTF-8 encoded"
    );
    let fee = delimited(2, &[0x10]);
    assert_eq!(
        error(&delimited(7, &delimited(3, &delimited(2, &fee)))),
        "Fee.gas_limit: AuthInfo.fee: Tx.auth_info: TxResult.tx: Block.transactions: invalid varint"
    );
    // Good parts are kept as they are, whatever unknown fields they hold.
    let commit = [0x08, 0x05, 0x22, 0x02, 0x08, 0x02, 0xa0, 0x01, 0x07];
    let block = Block::decode(&delimited(3, &commit)).unwrap();
    assert_eq!(block.last_commit, Some(commit.to_vec()));
}

#[test]
fn errors_tell_where_they_are() {
    assert_eq!(error(&[0x00]), "invalid tag value: 0");
    assert_eq!(
        error(&delimited(1, &[0x1a, 0x01, 0x05])),
        "Header.height: Block.header: invalid wire type: LengthDelimited (expected Varint)"
    );
    assert_eq!(
        error(&[0x08, 0x01]),
        "Block.header: invalid wire type: Varint (expected LengthDelimited)"
    );
    assert_eq!(error(&[0x0a, 0x05]), "Block.header: buffer underflow");
    assert_eq!(
        error(&delimited(4, &delimited(1, &delimited(1, &[0xc3, 0x28])))),
        "Event.event_type: ResponseBeginBlock.events: Block.result_begin_block: invalid string value: data is not UTF-8 encoded"
    );
    // In a field that the message does not have.
    assert_eq!(error(&[0x4c]), "unexpected end group tag");
    assert_eq!(error(&delimited(1, &[0xa4, 0x01])), "Block.header: unexpected end group tag");
    assert_eq!(error(&[0x4b, 0x54]), "unexpected end group tag");
}

/// The bytes of a field whose value follows its length, which may be 128 or more.
fn long_delimited(tag: u32, value: &[u8]) -> Vec<u8> {
    let mut bytes: Vec<u8> = Vec::new();
    prost::encoding::encode_key(tag, prost::encoding::WireType::LengthDelimited, &mut bytes);
    prost::encoding::encode_varint(value.len() as u64, &mut bytes);
    bytes.extend_from_slice(value);
    bytes
}

/// Groups in one another.
fn groups(depth: usize) -> Vec<u8> {
    let mut bytes = vec![0xa3, 0x06].repeat(depth);
    bytes.extend(vec![0xa4, 0x06].repeat(depth));
    bytes
}

#[test]
fn nesting_is_limited() {
    let limit_reached = "recursion limit reached";
    // The messages around a group count.
    assert!(Block::decode(&groups(100)).is_ok());
    assert_eq!(error(&groups(101)), limit_reached);
    assert!(Block::decode(&long_delimited(1, &groups(99))).is_ok());
    assert_eq!(
        error(&long_delimited(1, &groups(100))),
        "Block.header: recursion limit reached"
    );
    let in_body = |groups: Vec<u8>| {
        long_delimited(7, &long_delimited(3, &long_delimited(1, &groups)))
    };
    assert!(Block::decode(&in_body(groups(97))).is_ok());
    assert_eq!(
        error(&in_body(groups(98))),
        "Tx.body: TxResult.tx: Block.transactions: recursion limit reached"
    );
    // Modes of signers can hold one another.
    let in_mode = |depth: usize| {
        let mut bytes: Vec<u8> = Vec::new();
        for _ in 0..depth {
            bytes = long_delimited(2, &bytes);
        }
        let auth_info = long_delimited(1, &long_delimited(2, &bytes));
        long_delimited(7, &long_delimited(3, &long_delimited(2, &auth_info)))
    };
    assert!(Block::decode(&in_mode(95)).is_ok());
    assert!(error(&in_mode(96)).ends_with(limit_reached));
}
