//! The service layer's persistent records, as plain data.

pub mod sessions;
pub mod users;
