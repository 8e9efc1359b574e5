//! The rules of a small continuous-integration service: its records, its wire messages, its web
//! pages, and the decisions of its web server, driver and runner.

use vstd::prelude::*;

pub mod text;
pub mod paths;
pub mod protocol;
pub mod sql;
pub mod tables;
pub mod dbctx;
pub mod hosts;
pub mod rows;
pub mod json;
pub mod order;
pub mod web;
pub mod commit_page;
pub mod metrics;
pub mod repo_page;
pub mod server;
pub mod jobs;
pub mod github;
pub mod notifier;
pub mod webhook;
pub mod goodfile;
pub mod io;
pub mod host_info;
pub mod runner;
pub mod driver;
pub mod ctl;
pub mod frontend;

verus! {

/// `std::time::SystemTime::now` and `duration_since` of it: the milliseconds since 1970 that the
/// machine's clock shows. Nothing is claimed of the number: two calls may give any two.
#[verifier::external_body]
pub fn now_ms() -> (r: u64) {
    std::time::SystemTime::now()
        .duration_since(std::time::UNIX_EPOCH)
        .expect("now is later than epoch")
        .as_millis() as u64
}

} // verus!
