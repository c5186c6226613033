//! Verified core of an invoicing application: the data model, the storage
//! codecs for its tables, the update rules of its repositories and the
//! request-form logic of its web front end.

pub mod date;
pub mod text;
pub mod decimal;
pub mod models;
pub mod error;
pub mod status;
pub mod rows;
pub mod invoice_store;
pub mod lines;
pub mod patches;
pub mod legacy;
pub mod numbers;
pub mod forms;
pub mod invoice_forms;
