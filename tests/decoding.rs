use enclava_backend::event::{decode, decode_batch, decode_with_topic, mint_event_topic, DecodeError, RawLog, MINT_EVENT_SIGNATURE};

fn word_of_u64(n: u64) -> [u8; 32] {
    let mut w = [0u8; 32];
    w[24..].copy_from_slice(&n.to_be_bytes());
    w
}

fn word_of_address(a: [u8; 20]) -> [u8; 32] {
    let mut w = [0u8; 32];
    w[12..].copy_from_slice(&a);
    w
}

fn string_body(text: &str) -> Vec<u8> {
    let mut out = word_of_u64(32).to_vec();
    out.extend_from_slice(&word_of_u64(text.len() as u64));
    let mut bytes = text.as_bytes().to_vec();
    while bytes.len() % 32 != 0 {
        bytes.push(0);
    }
    out.extend_from_slice(&bytes);
    out
}

fn recipient_abcd() -> [u8; 20] {
    let mut a = [0u8; 20];
    for (i, b) in a.iter_mut().enumerate() {
        *b = if i % 2 == 0 { 0xAB } else { 0xCD };
    }
    a
}

fn mint_log(recipient: [u8; 20], token: u64, dataset: &str, tx: Option<[u8; 32]>) -> RawLog {
    RawLog {
        topics: vec![mint_event_topic(), word_of_address(recipient), word_of_u64(token)],
        data: string_body(dataset),
        transaction_hash: tx,
    }
}

#[test]
fn topic_is_keccak_of_signature() {
    let expected = alloy::primitives::keccak256(MINT_EVENT_SIGNATURE.as_bytes());
    assert_eq!(mint_event_topic(), expected.0);
    assert_ne!(&mint_event_topic()[..], &MINT_EVENT_SIGNATURE.as_bytes()[..32]);
}

#[test]
fn decodes_mint_with_transaction_hash() {
    let tx = [0x11u8; 32];
    let log = mint_log(recipient_abcd(), 42, "ds-001", Some(tx));
    let event = decode(&log).expect("log should decode");
    assert_eq!(event.recipient(), recipient_abcd());
    assert_eq!(event.token_id(), word_of_u64(42));
    assert_eq!(event.dataset_identifier(), "ds-001");
    assert_eq!(event.transaction_hash(), Some(tx));
}

#[test]
fn decodes_mint_without_transaction_hash() {
    let log = mint_log(recipient_abcd(), 42, "ds-001", None);
    let event = decode(&log).expect("log should decode");
    assert_eq!(event.recipient(), recipient_abcd());
    assert_eq!(event.token_id(), word_of_u64(42));
    assert_eq!(event.dataset_identifier(), "ds-001");
    assert_eq!(event.transaction_hash(), None);
}

#[test]
fn recipient_is_low_twenty_bytes_of_topic() {
    let mut log = mint_log(recipient_abcd(), 1, "x", None);
    log.topics[1][0] = 0xFF;
    let event = decode(&log).expect("log should decode");
    assert_eq!(event.recipient(), recipient_abcd());
}

#[test]
fn decodes_long_dataset_identifier() {
    let name = "a dataset identifier that is longer than one abi word of thirty-two bytes";
    let event = decode(&mint_log(recipient_abcd(), 3, name, None)).unwrap();
    assert_eq!(event.dataset_identifier(), name);
}

#[test]
fn rejects_wrong_topic_count() {
    let mut log = mint_log(recipient_abcd(), 42, "ds-001", None);
    log.topics.pop();
    assert_eq!(decode(&log).unwrap_err(), DecodeError::TopicCount);
    log.topics.push(word_of_u64(1));
    log.topics.push(word_of_u64(2));
    assert_eq!(decode(&log).unwrap_err(), DecodeError::TopicCount);
}

#[test]
fn rejects_other_event_signature() {
    let mut log = mint_log(recipient_abcd(), 42, "ds-001", None);
    log.topics[0] = alloy::primitives::keccak256(b"DatasetUsed(uint256,address,uint256)").0;
    assert_eq!(decode(&log).unwrap_err(), DecodeError::SignatureMismatch);
}

#[test]
fn rejects_malformed_data() {
    let mut log = mint_log(recipient_abcd(), 42, "ds-001", None);
    log.data = vec![];
    assert_eq!(decode(&log).unwrap_err(), DecodeError::MalformedData);
    let mut truncated = string_body("ds-001");
    truncated.truncate(40);
    log.data = truncated;
    assert_eq!(decode(&log).unwrap_err(), DecodeError::MalformedData);
}

#[test]
fn decode_with_topic_uses_given_topic() {
    let topic = [7u8; 32];
    let mut log = mint_log(recipient_abcd(), 9, "ds-009", None);
    assert_eq!(decode_with_topic(&topic, &log).unwrap_err(), DecodeError::SignatureMismatch);
    log.topics[0] = topic;
    let event = decode_with_topic(&topic, &log).unwrap();
    assert_eq!(event.token_id(), word_of_u64(9));
}

#[test]
fn malformed_middle_log_is_skipped() {
    let first = mint_log(recipient_abcd(), 1, "ds-001", None);
    let mut second = mint_log(recipient_abcd(), 2, "ds-002", None);
    second.data = vec![1, 2, 3];
    let third = mint_log(recipient_abcd(), 3, "ds-003", None);
    let (events, skipped) = decode_batch(&mint_event_topic(), &vec![first, second, third]);
    assert_eq!(events.len(), 2);
    assert_eq!(events[0].token_id(), word_of_u64(1));
    assert_eq!(events[0].dataset_identifier(), "ds-001");
    assert_eq!(events[1].token_id(), word_of_u64(3));
    assert_eq!(events[1].dataset_identifier(), "ds-003");
    assert_eq!(skipped, vec![1]);
}

#[test]
fn empty_batch_decodes_to_nothing() {
    let (events, skipped) = decode_batch(&mint_event_topic(), &vec![]);
    assert!(events.is_empty());
    assert!(skipped.is_empty());
}
