//! A small web-facing status application: a fixed pair of HTML pages, a
//! health endpoint and a static-asset passthrough, with the request-to-response
//! mapping and the markup construction verified.

pub mod bootstrap;
pub mod html;
pub mod http;
pub mod pages;

pub use bootstrap::window_size;
