//! Decoding of what a Cardano node answers over the local transaction
//! submission mini-protocol, above all the reasons for which it rejects a
//! transaction.
//!
//! A rejection is a deeply nested CBOR structure of tagged failures. Only some
//! of its kinds are modelled here; everything else has to be skipped without
//! losing the place in the input, because nothing in the encoding allows to
//! find it again. The crate is built around that:
//!
//! - [`cbor`] reads single items with `minicbor`, behind wrappers whose results
//!   are named and trusted;
//! - [`token`] turns a read into one token, whatever the kind of the item;
//! - [`scope`] keeps the stack of open collections in step with the cursor, and
//!   drains it where something is to be skipped;
//! - [`grammar`] says where an item ends, and proves that skipping and draining
//!   end exactly there;
//! - [`value`], [`failures`] and [`node_errors`] decode the payloads, the layers
//!   of the hierarchy and the list of entries;
//! - [`resync`] proves that decoding an entry, or skipping it, leaves the
//!   cursor exactly behind it;
//! - [`protocol`] holds the messages and flattens entries into reasons;
//! - [`codec`] encodes and decodes messages, also where a rejection arrives in
//!   more than one piece.

pub mod cbor;
pub mod codec;
pub mod cursor;
pub mod error;
pub mod failures;
pub mod grammar;
pub mod node_errors;
pub mod protocol;
pub mod resync;
pub mod scope;
pub mod token;
pub mod value;

pub use codec::{DecodeCBORSplitPayload, DecodingResult, NodeErrorDecoder};
pub use cursor::Cursor;
pub use error::DecodeError;
pub use failures::{
    AlonzoUtxoPredFailure, AlonzoUtxowPredFailure, BabbageUtxoPredFailure, BabbageUtxowPredFailure,
    ShelleyLedgerPredFailure, ShelleyUtxowPredFailure,
};
pub use node_errors::TxApplyErrors;
pub use protocol::{EraTx, Message, RejectReason, RejectReasonBytes, State, TxRejectionReasons};
pub use scope::OuterScope;
pub use value::{TxInput, Value};
