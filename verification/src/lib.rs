//! A fixed-size worker-thread pool, modelled as a verified state machine,
//! together with the decision cores of the small service layer around it.
//!
//! The pool couples a FIFO job queue with a fixed set of workers.
//! Submission, retrieval, execution and shutdown are exposed as explicit
//! transitions, so that an embedding runtime can drive real threads while
//! every decision the pool makes — and every accounting claim about jobs —
//! is verified here.

pub mod controllers;
pub mod errors;
pub mod middlewares;
pub mod models;
pub mod queue;
pub mod thread_pool;
pub mod users;
pub mod worker;
