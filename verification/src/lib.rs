//! A minimal HTTP relay: one route accepts a target URL as a query
//! parameter, fetches that URL server-side, and returns the body as HTML.
//! A second deployment additionally serves static files from the working
//! directory and permits cross-origin GET requests.
//!
//! This crate holds the verified decision core: given what happened at each
//! I/O boundary (the outbound fetch, the file read), it decides the exact
//! status code and body of the response. The network and file plumbing that
//! produces those events lives outside the library.

pub mod relay;
pub mod server;
