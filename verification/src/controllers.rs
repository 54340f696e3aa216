//! The decision cores of the service layer's request handlers.

pub mod users;
