//! An IRC chat-room bot core: event dispatch, throttled operation queues,
//! ordered pattern ACLs, URL-rewrite tables, config snapshots and the pure
//! parts of the URL-enrichment jobs.
//!
//! The network transport, HTTP fetching and on-disk persistence are external
//! collaborators; this library holds the decision logic and calls into the
//! regex, tera, webpage and chrono crates through a small trusted layer.

pub mod re_engine;
pub mod re_acl;
pub mod re_mut;
pub mod str_util;
pub mod strmap;
pub mod queue;
pub mod time_fmt;
pub mod tmpl;
pub mod config;
pub mod urlhist;
pub mod enrich;
pub mod ircbot;
