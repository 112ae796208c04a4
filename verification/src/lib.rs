//! Core logic of a two-party rental agreement: a small state machine whose
//! state is a fixed-layout binary record and whose transitions are triggered
//! by decoded instructions.
//!
//! The crate is organised leaves-first: `state` holds the agreement record and
//! its invariants, `codec` the fixed-layout binary encoding of the record,
//! `instruction` the decoder for the instruction wire format, `error` the
//! error taxonomy, `processor` the transition handlers that tie them
//! together, and `laws` the once-and-for-all proofs of the lifecycle's
//! guarantees.

pub mod codec;
pub mod error;
pub mod instruction;
pub mod laws;
pub mod processor;
pub mod state;
