//! Consistency validation of a rollup's observable chain state.
//!
//! A worker follows the rollup's slot notifications. For the most recent slot
//! it waits until the read API reflects it, reads the rollup height and the
//! state root, and submits a transaction that asserts all three: the rollup
//! rejects the transaction where its own state differs. This crate holds the
//! decisions of that worker, with their contracts:
//!
//! - [`stream`]: which slot to react to, and how many stream errors to bear;
//! - [`poller`]: how long to wait for the read API;
//! - [`reader`]: where the kernel state is read from;
//! - [`submitter`]: what is asserted, and which rejections are benign;
//! - [`height`] and [`phrase`]: reading the sequencer's messages;
//! - [`worker`]: the cycle as a whole, and [`worker_laws`]: what holds of
//!   every run of it;
//! - [`cleanup`]: clearing away files that may already be gone.
//!
//! Nothing here waits, reads or sends. A driver performs the actions that the
//! worker asks for and reports the results back.

pub mod cleanup;
pub mod height;
pub mod phrase;
pub mod poller;
pub mod reader;
pub mod stream;
pub mod submitter;
pub mod worker;
pub mod worker_laws;
