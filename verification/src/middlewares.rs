//! Request middleware: the per-request session bookkeeping.

pub mod auth;
