//! Verified core of the SAT invoice service: pagination, error mapping,
//! credential encryption, SAT date handling, crawl orchestration decisions,
//! invoice query building and the small text helpers they share.

pub mod text;
pub mod pagination;
pub mod errors;
pub mod crypto;
pub mod dates;
pub mod crawl;
pub mod reactor;
pub mod invoice_query;
pub mod grouping;
pub mod storage;
pub mod downloads;
pub mod invoices;
pub mod auth;
pub mod credentials;
pub mod requests;
