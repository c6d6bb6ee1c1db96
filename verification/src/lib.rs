//! A small client library for creating time entries in a web time-tracking
//! service: it validates the requested interval, computes the entry's
//! duration, renders the request body as JSON, and decides whether the
//! service's answer counts as success. All of it is verified; the actual
//! file, argument and network handling lives outside the library.

pub mod api;
pub mod entry;
pub mod json;
pub mod token;
