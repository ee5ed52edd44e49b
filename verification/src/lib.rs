//! Verified core of a screen-capture translation tool: language-code
//! validation and mapping, OCR text normalization, credential resolution,
//! translation request/response handling, and result rendering.
//!
//! All I/O (process invocation, HTTP, environment) lives outside this
//! library; the functions here take plain values and return plain values.

pub mod cli;
pub mod config;
pub mod error;
pub mod ocr;
pub mod output;
pub mod tesseract;
pub mod text;
pub mod translate;
pub mod wayland;
