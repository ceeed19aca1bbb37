use std::cell::RefCell;

use enclava_backend::dispatch::{dispatch_batch, dispatch_one, settle, HandlerError, MintHandler};
use enclava_backend::event::{decode, mint_event_topic, DatasetNFTMint, RawLog};

fn word_of_u64(n: u64) -> [u8; 32] {
    let mut w = [0u8; 32];
    w[24..].copy_from_slice(&n.to_be_bytes());
    w
}

fn event_for(token: u64) -> DatasetNFTMint {
    let mut data = word_of_u64(32).to_vec();
    data.extend_from_slice(&word_of_u64(2));
    let mut text = b"ds".to_vec();
    text.resize(32, 0);
    data.extend_from_slice(&text);
    let log = RawLog {
        topics: vec![mint_event_topic(), [0x33; 32], word_of_u64(token)],
        data,
        transaction_hash: None,
    };
    decode(&log).unwrap()
}

struct Recorder {
    seen: RefCell<Vec<[u8; 32]>>,
    failing: [u8; 32],
}

impl MintHandler for Recorder {
    fn handle_mint(&self, event: &DatasetNFTMint) -> Result<(), HandlerError> {
        self.seen.borrow_mut().push(event.token_id());
        if event.token_id() == self.failing {
            Err(HandlerError { message: "database unavailable".to_string() })
        } else {
            Ok(())
        }
    }
}

fn recorder_failing_on(token: u64) -> Recorder {
    Recorder { seen: RefCell::new(vec![]), failing: word_of_u64(token) }
}

#[test]
fn handler_failure_does_not_stop_next_event() {
    let handler = recorder_failing_on(7);
    let outcomes = dispatch_batch(&handler, &vec![event_for(7), event_for(8)]);
    assert_eq!(outcomes.len(), 2);
    assert_eq!(outcomes[0].token_id, word_of_u64(7));
    assert_eq!(outcomes[0].error.as_ref().unwrap().message, "database unavailable");
    assert_eq!(outcomes[1].token_id, word_of_u64(8));
    assert!(outcomes[1].error.is_none());
    assert_eq!(*handler.seen.borrow(), vec![word_of_u64(7), word_of_u64(8)]);
}

#[test]
fn handler_failure_does_not_stop_later_cycle() {
    let handler = recorder_failing_on(7);
    let first = dispatch_one(&handler, &event_for(7));
    assert!(first.error.is_some());
    let second = dispatch_one(&handler, &event_for(8));
    assert_eq!(second.token_id, word_of_u64(8));
    assert!(second.error.is_none());
    assert_eq!(handler.seen.borrow().len(), 2);
}

#[test]
fn dispatcher_does_not_deduplicate() {
    let handler = recorder_failing_on(99);
    let outcomes = dispatch_batch(&handler, &vec![event_for(5), event_for(5)]);
    assert_eq!(outcomes.len(), 2);
    assert!(outcomes.iter().all(|o| o.token_id == word_of_u64(5) && o.error.is_none()));
    assert_eq!(*handler.seen.borrow(), vec![word_of_u64(5), word_of_u64(5)]);
}

#[test]
fn settle_records_handler_answer() {
    let event = event_for(11);
    let ok = settle(&event, Ok(()));
    assert_eq!(ok.token_id, word_of_u64(11));
    assert!(ok.error.is_none());
    let failed = settle(&event, Err(HandlerError { message: "boom".to_string() }));
    assert_eq!(failed.error.unwrap().message, "boom");
}

#[test]
fn empty_batch_dispatches_nothing() {
    let handler = recorder_failing_on(1);
    assert!(dispatch_batch(&handler, &vec![]).is_empty());
    assert!(handler.seen.borrow().is_empty());
}
