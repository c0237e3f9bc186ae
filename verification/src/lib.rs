//! Request-time policy engine for HTTP API deprecation.
//!
//! Given a static set of endpoint rules and the facts of one inbound request
//! (path, method, query string, current time), the engine decides whether the
//! request targets a governed endpoint, which lifecycle action applies (warn,
//! redirect, block, or a custom response), and which deprecation, sunset, link
//! and notice headers to attach.

use vstd::prelude::*;

pub mod agent;
pub mod config;
pub mod dates;
pub mod glob;
pub mod headers;
pub mod json;
pub mod strings;

verus! {

} // verus!
