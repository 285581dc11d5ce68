//! An append-only ledger of submitted links, kept in a single storage
//! account: one operation creates the account with an entry count of zero,
//! the other appends a (link, submitter) record and bumps the count.

pub mod account;
pub mod program;
