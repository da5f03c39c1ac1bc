//! Name resolution over an encrypted DNS channel: the decision logic.
//!
//! A host name is resolved to its IPv4 addresses by one query to a fixed
//! server. This crate holds all that decides something on the way, and proves
//! it: bringing the host name into its absolute form (`name`), sorting a
//! response by its status (`status`), walking the answer records from the name
//! that was asked for, through its aliases, down to the addresses (`chase`),
//! and telling the result as one outcome (`outcome`, `resolve`). The query
//! itself is made by the caller, who hands it in as a function.
//!
//! The modules `nss` and `buffer` serve a caller that is a plugin of the name
//! service switch: what such a lookup reports, and where its result lies in
//! the buffer that it is lent.

pub mod buffer;
pub mod chase;
pub mod error;
pub mod name;
pub mod nss;
pub mod outcome;
pub mod record;
pub mod resolve;
pub mod status;
