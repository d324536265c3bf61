//! Simple Service Discovery Protocol: protocol versions, search targets, the
//! HTTP-over-UDP message format, and the search and notify engines.

pub mod version;
pub mod text;
pub mod target;
pub mod message;
pub mod syntax;
pub mod agent;
pub mod notify;
pub mod search;
pub mod response;
pub mod xml;
