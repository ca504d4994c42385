//! Request-execution core of a desktop REST client.
//!
//! The crate turns a request description into the call to make, and turns
//! what the transport hands back into a normalized response record. The
//! network exchange itself happens outside; this crate decides everything
//! around it.

pub mod model;
pub mod text;
pub mod request;
pub mod headers;
pub mod response;
pub mod dispatch;
pub mod state;
pub mod view;
