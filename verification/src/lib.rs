//! Incremental mailbox archiving: the decisions and data transformations
//! behind mirroring a remote mailbox into a local relational store.

pub mod archive;
pub mod client;
pub mod codec;
pub mod http;
pub mod hydrate;
pub mod model;
pub mod oauth;
pub mod pager;
pub mod resume;
pub mod store;
pub mod text;
pub mod time;
pub mod tree;
