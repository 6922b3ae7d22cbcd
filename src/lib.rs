//! Weather forecast reports.
//!
//! A forecast document, read with its values in text form, is mapped into a
//! typed model (`mapper`), rendered as a text report (`render`), and wrapped
//! into a base64-encoded mail for a dispatch service (`pipeline`).

pub mod mapper;
pub mod model;
pub mod number;
pub mod pipeline;
pub mod recipients;
pub mod render;
