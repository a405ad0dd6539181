//! Core of an interview-practice assistant: the interview phase state machine,
//! the interviewer personas and their scheduler, reliability primitives for
//! calls to a text-generation service, and the bookkeeping of a vector
//! knowledge store.

pub mod agents;
pub mod bootstrap;
pub mod cache;
pub mod dedup;
pub mod error;
pub mod generation;
pub mod import;
pub mod keyed;
pub mod rag;
pub mod retry;
pub mod scheduler;
pub mod state_machine;
pub mod vector_store;
