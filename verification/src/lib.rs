//! A small embeddable HTTP/1.1 server library.
//!
//! The crate contains the verified core of such a server: the response
//! builder and its wire serialization, the status-code table, the
//! request-line parser, the query decoder, and the route table with its
//! first-match-wins dispatch.  Listening sockets and worker threads are
//! deliberately kept outside of this crate's scope; an embedding program
//! reads a request buffer from a connection, hands it to the library, and
//! writes the returned bytes back.

pub mod find;
pub mod query;
pub mod request;
pub mod response;
pub mod router;
pub mod server;
pub mod status;
pub mod target;

pub use query::Query;
pub use response::{Response, ResponseBuilder};
pub use router::{Handler, Router};
pub use server::{handle_request, ServerConfig};
pub use status::HttpStatus;
pub use target::decode_target;
