//! Protocol layer for a benchmark of batched one-dimensional complex Fourier
//! transforms on an accelerator.
//!
//! Nothing in this crate touches the accelerator. Every operation of the
//! runtime wrappers comes in two halves: `x_call` builds the foreign call that
//! the embedding program has to issue, and `x` interprets the reply that the
//! call produced. The benchmark itself is a state machine that is fed one
//! reply at a time and answers with the next call, so that the order of calls,
//! the propagation of failures and the release of every acquired resource are
//! decided, and proved, here.

pub mod bench;
pub mod cuda;
pub mod cufft;
pub mod decimal;
pub mod device;
pub mod error;
pub mod ledger;
pub mod order;
pub mod signal;
