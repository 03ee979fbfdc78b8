//! Request resolution for a static-file server.
//!
//! A request path is mapped to a file beneath a configured root directory.
//! The file is served with a content type guessed from its extension; when
//! no file can be served, the request falls back to a bare `404` or to a
//! listing of the HTML files near the requested path.
//!
//! The library decides and never touches the filesystem: the transport
//! performs each [`routes::fallback::Action`] and reports what it saw.

pub mod listing;
pub mod media;
pub mod path;
pub mod resolution;
pub mod response;
pub mod routes;
pub mod state;
