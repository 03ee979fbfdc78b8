//! The routes of the server. There is one: every request falls through to
//! the resolver.

pub mod fallback;
