//! A client for a graph database's HTTP/JSON REST interface, written in a
//! sans-I/O style: every operation is split into a function that describes
//! the HTTP request to perform and a function that interprets what came back.

pub mod types;
pub mod text;
pub mod json;
pub mod http;
pub mod client;
pub mod node;
pub mod relationship;
pub mod path;
pub mod cypher;
pub mod index;
