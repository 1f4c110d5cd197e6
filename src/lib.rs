//! A registry that makes chat-delivered files fetchable by a public link.
//!
//! Registration turns a file descriptor into one record of string fields
//! under `"file_" + unique_id` and a public URL; retrieval turns the fields
//! read back under that key into an origin fetch plan and the response
//! headers, or a terminal error reply.
pub mod fields;
pub mod record;
pub mod registration;
pub mod retrieval;
pub mod store_model;
