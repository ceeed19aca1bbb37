//! Raw logs as the chain provider returns them, the mint event decoded from
//! them, and the decoder, which skips what it cannot read.
use vstd::prelude::*;

use vstd::string::StringSliceAdditionalSpecFns;

use crate::abi::{abi_string_of, decode_string_body, keccak256, keccak_of};

verus! {

/// Solidity signature of the mint event; its Keccak-256 digest is the first
/// topic of every log the event emits.
pub const MINT_EVENT_SIGNATURE: &'static str = "DatasetNFTMinted(address,uint256,string)";

/// A log entry as fetched from the provider: its topics (32-byte words), its
/// data bytes and, where the provider gives it, the hash of its transaction.
#[derive(Debug, Clone)]
pub struct RawLog {
    pub topics: Vec<[u8; 32]>,
    pub data: Vec<u8>,
    pub transaction_hash: Option<[u8; 32]>,
}

pub struct RawLogView {
    pub topics: Seq<Seq<u8>>,
    pub data: Seq<u8>,
    pub transaction_hash: Option<Seq<u8>>,
}

pub open spec fn hash_view(h: Option<[u8; 32]>) -> Option<Seq<u8>> {
    match h {
        Some(w) => Some(w@),
        None => None,
    }
}

impl View for RawLog {
    type V = RawLogView;

    open spec fn view(&self) -> RawLogView {
        RawLogView {
            topics: self.topics@.map_values(|w: [u8; 32]| w@),
            data: self.data@,
            transaction_hash: hash_view(self.transaction_hash),
        }
    }
}

/// A decoded mint: the recipient's 20-byte address, the token id as a 32-byte
/// big-endian word, the dataset it refers to, and the transaction hash when the
/// provider gave one. Only the decoder makes one.
#[derive(Debug, Clone)]
pub struct DatasetNFTMint {
    recipient: [u8; 20],
    token_id: [u8; 32],
    dataset_identifier: String,
    transaction_hash: Option<[u8; 32]>,
}

pub struct DatasetNFTMintView {
    pub recipient: Seq<u8>,
    pub token_id: Seq<u8>,
    pub dataset_identifier: Seq<char>,
    pub transaction_hash: Option<Seq<u8>>,
}

impl View for DatasetNFTMint {
    type V = DatasetNFTMintView;

    closed spec fn view(&self) -> DatasetNFTMintView {
        DatasetNFTMintView {
            recipient: self.recipient@,
            token_id: self.token_id@,
            dataset_identifier: self.dataset_identifier@,
            transaction_hash: hash_view(self.transaction_hash),
        }
    }
}

impl DatasetNFTMint {
    /// The 20-byte address the token was minted to.
    pub fn recipient(&self) -> (r: [u8; 20])
        ensures
            r@ == self@.recipient,
    {
        self.recipient
    }

    /// The token id, as a 32-byte big-endian word.
    pub fn token_id(&self) -> (r: [u8; 32])
        ensures
            r@ == self@.token_id,
    {
        self.token_id
    }

    /// The key of the dataset the token stands for.
    pub fn dataset_identifier(&self) -> (r: &str)
        ensures
            r@ == self@.dataset_identifier,
    {
        self.dataset_identifier.as_str()
    }

    /// The hash of the minting transaction, when the provider gave it.
    pub fn transaction_hash(&self) -> (r: Option<[u8; 32]>)
        ensures
            hash_view(r) == self@.transaction_hash,
    {
        self.transaction_hash
    }
}

/// Why a log was not read as a mint event.
#[derive(Debug, Clone, Copy, PartialEq, Eq, Structural)]
pub enum DecodeError {
    /// The log does not carry exactly three topics.
    TopicCount,
    /// The first topic is not the digest of the mint event's signature.
    SignatureMismatch,
    /// The data is not the ABI encoding of one string.
    MalformedData,
}

/// The digest of the mint event's signature, as a sequence of bytes.
pub open spec fn mint_topic_spec() -> Seq<u8> {
    keccak_of(MINT_EVENT_SIGNATURE.spec_bytes())
}

/// The event that `log` holds, read against the topic `topic`: three topics,
/// the first equal to `topic`, the recipient in the low 20 bytes of the second,
/// the token id as the third, and one ABI-encoded string as the data.
pub open spec fn decode_spec(topic: Seq<u8>, log: RawLogView) -> Result<DatasetNFTMintView, DecodeError> {
    if log.topics.len() != 3 {
        Err(DecodeError::TopicCount)
    } else if log.topics[0] != topic {
        Err(DecodeError::SignatureMismatch)
    } else {
        match abi_string_of(log.data) {
            None => Err(DecodeError::MalformedData),
            Some(text) => Ok(
                DatasetNFTMintView {
                    recipient: log.topics[1].subrange(12, 32),
                    token_id: log.topics[2],
                    dataset_identifier: text,
                    transaction_hash: log.transaction_hash,
                },
            ),
        }
    }
}

pub open spec fn decode_result_view(r: Result<DatasetNFTMint, DecodeError>) -> Result<DatasetNFTMintView, DecodeError> {
    match r {
        Ok(e) => Ok(e@),
        Err(x) => Err(x),
    }
}

/// The events of a batch, in order, leaving out each log that does not decode.
pub open spec fn decoded_events(topic: Seq<u8>, logs: Seq<RawLogView>) -> Seq<DatasetNFTMintView>
    decreases logs.len(),
{
    if logs.len() == 0 {
        Seq::empty()
    } else {
        let before = decoded_events(topic, logs.drop_last());
        match decode_spec(topic, logs.last()) {
            Ok(e) => before.push(e),
            Err(_) => before,
        }
    }
}

/// The positions, in increasing order, of the logs of a batch that do not decode.
pub open spec fn rejected_positions(topic: Seq<u8>, logs: Seq<RawLogView>) -> Seq<int>
    decreases logs.len(),
{
    if logs.len() == 0 {
        Seq::empty()
    } else {
        let before = rejected_positions(topic, logs.drop_last());
        match decode_spec(topic, logs.last()) {
            Ok(_) => before,
            Err(_) => before.push(logs.len() - 1),
        }
    }
}

pub open spec fn logs_view(logs: Seq<RawLog>) -> Seq<RawLogView> {
    logs.map_values(|l: RawLog| l@)
}

pub open spec fn events_view(events: Seq<DatasetNFTMint>) -> Seq<DatasetNFTMintView> {
    events.map_values(|e: DatasetNFTMint| e@)
}

/// Returns the digest of [`MINT_EVENT_SIGNATURE`], the topic that marks the
/// event's logs.
pub fn mint_event_topic() -> (r: [u8; 32])
    ensures
        r@ == mint_topic_spec(),
{
    keccak256(MINT_EVENT_SIGNATURE.as_bytes())
}

fn word_eq(a: &[u8; 32], b: &[u8; 32]) -> (r: bool)
    ensures
        r == (a@ == b@),
{
    let mut i: usize = 0;
    while i < 32
        invariant
            i <= 32,
            forall|j: int| 0 <= j < i ==> a@[j] == b@[j],
        decreases 32 - i,
    {
        if a[i] != b[i] {
            return false;
        }
        i = i + 1;
    }
    assert(a@ =~= b@);
    true
}

/// The low 20 bytes of a topic word: where an indexed address sits.
fn address_of_word(word: &[u8; 32]) -> (r: [u8; 20])
    ensures
        r@ == word@.subrange(12, 32),
{
    let mut out = [0u8; 20];
    let mut i: usize = 0;
    while i < 20
        invariant
            i <= 20,
            forall|j: int| 0 <= j < i ==> out@[j] == word@[j + 12],
        decreases 20 - i,
    {
        out[i] = word[i + 12];
        i = i + 1;
    }
    assert(out@ =~= word@.subrange(12, 32));
    out
}

/// Reads `log` as a mint event whose logs carry the topic `topic`.
pub fn decode_with_topic(topic: &[u8; 32], log: &RawLog) -> (r: Result<DatasetNFTMint, DecodeError>)
    ensures
        decode_result_view(r) == decode_spec(topic@, log@),
{
    if log.topics.len() != 3 {
        return Err(DecodeError::TopicCount);
    }
    if !word_eq(&log.topics[0], topic) {
        return Err(DecodeError::SignatureMismatch);
    }
    match decode_string_body(log.data.as_slice()) {
        None => Err(DecodeError::MalformedData),
        Some(text) => {
            let event = DatasetNFTMint {
                recipient: address_of_word(&log.topics[1]),
                token_id: log.topics[2],
                dataset_identifier: text,
                transaction_hash: log.transaction_hash,
            };
            Ok(event)
        },
    }
}

/// Reads `log` as a mint event.
pub fn decode(log: &RawLog) -> (r: Result<DatasetNFTMint, DecodeError>)
    ensures
        decode_result_view(r) == decode_spec(mint_topic_spec(), log@),
{
    let topic = mint_event_topic();
    decode_with_topic(&topic, log)
}

/// Decodes a batch of logs against `topic`. A log that does not decode is
/// skipped and its position reported; it does not stop the others.
pub fn decode_batch(topic: &[u8; 32], logs: &Vec<RawLog>) -> (r: (Vec<DatasetNFTMint>, Vec<usize>))
    ensures
        events_view(r.0@) == decoded_events(topic@, logs_view(logs@)),
        r.1@.map_values(|i: usize| i as int) == rejected_positions(topic@, logs_view(logs@)),
{
    let mut events: Vec<DatasetNFTMint> = Vec::new();
    let mut rejected: Vec<usize> = Vec::new();
    let mut i: usize = 0;
    while i < logs.len()
        invariant
            i <= logs.len(),
            events_view(events@) == decoded_events(topic@, logs_view(logs@).take(i as int)),
            rejected@.map_values(|k: usize| k as int) == rejected_positions(
                topic@,
                logs_view(logs@).take(i as int),
            ),
        decreases logs.len() - i,
    {
        let ghost prefix = logs_view(logs@).take(i as int);
        let ghost next = logs_view(logs@).take(i + 1);
        assert(next.drop_last() =~= prefix);
        assert(next.last() == logs@[i as int]@);
        match decode_with_topic(topic, &logs[i]) {
            Ok(e) => {
                events.push(e);
                assert(events_view(events@) =~= decoded_events(topic@, prefix).push(e@));
                assert(rejected@.map_values(|k: usize| k as int) == rejected_positions(topic@, next));
            },
            Err(_) => {
                rejected.push(i);
                assert(rejected@.map_values(|k: usize| k as int) =~= rejected_positions(
                    topic@,
                    prefix,
                ).push(i as int));
                assert(events_view(events@) == decoded_events(topic@, next));
            },
        }
        i = i + 1;
    }
    assert(logs_view(logs@).take(logs@.len() as int) =~= logs_view(logs@));
    (events, rejected)
}

proof fn lemma_decoded_events_concat(topic: Seq<u8>, a: Seq<RawLogView>, b: Seq<RawLogView>)
    ensures
        decoded_events(topic, a + b) == decoded_events(topic, a) + decoded_events(topic, b),
    decreases b.len(),
{
    if b.len() == 0 {
        assert(a + b =~= a);
        assert(decoded_events(topic, a) + decoded_events(topic, b) =~= decoded_events(topic, a));
    } else {
        lemma_decoded_events_concat(topic, a, b.drop_last());
        assert((a + b).drop_last() =~= a + b.drop_last());
        assert((a + b).last() == b.last());
        match decode_spec(topic, b.last()) {
            Ok(e) => {
                assert(decoded_events(topic, a + b) =~= decoded_events(topic, a)
                    + decoded_events(topic, b));
            },
            Err(_) => {},
        }
    }
}

/// A log that does not decode leaves out only itself: the events of a batch
/// holding it are those of the same batch without it, in the same order.
pub proof fn lemma_bad_log_skipped_alone(
    topic: Seq<u8>,
    before: Seq<RawLogView>,
    bad: RawLogView,
    after: Seq<RawLogView>,
)
    requires
        decode_spec(topic, bad) is Err,
    ensures
        decoded_events(topic, before.push(bad) + after) == decoded_events(topic, before + after),
{
    lemma_decoded_events_concat(topic, before.push(bad), after);
    lemma_decoded_events_concat(topic, before, after);
    assert(before.push(bad).drop_last() =~= before);
}

} // verus!
