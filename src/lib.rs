//! Ingestion core of the Enclava backend: it follows a contract's mint events on
//! chain, decodes them into mint records ([`event::DatasetNFTMint`]) and hands each one to a
//! persistence handler, under a supervisor that retries with bounded backoff.
//!
//! - [`supervisor`]: the poll loop as a state machine over the scan cursor and
//!   the retry state;
//! - [`event`]: raw logs and the decoder;
//! - [`abi`]: what the decoder takes from alloy;
//! - [`retry`]: the backoff policy;
//! - [`dispatch`]: handing events to the persistence handler;
//! - [`types`]: records shared with the rest of the service.

pub mod abi;
pub mod dispatch;
pub mod event;
pub mod retry;
pub mod supervisor;
pub mod text;
pub mod types;
