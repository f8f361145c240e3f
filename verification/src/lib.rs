//! A self-hosted, cookie-less web analytics service: the logic of tracking,
//! storing and summarising page views.
//!
//! - [`text`]: character-level text helpers.
//! - [`classify`]: device and browser families from a user agent.
//! - [`visitor`]: the daily-rotating visitor identity.
//! - [`bucket`], [`window`]: time buckets, stats routing, rollup windows.
//! - [`accounting`]: why aggregated plus raw counting counts each hit once.
//! - [`sql`], [`store`]: the statements of the SQLite store and the store itself.
//! - [`api`]: the decisions of the HTTP endpoints.
//! - [`dashboard`]: which embedded dashboard file answers a path.
//! - [`config`]: the persisted configuration.
//! - [`model`], [`clock`], [`db`]: records, the wall clock, the SQLite calls.

pub mod text;
pub mod bucket;
pub mod window;
pub mod classify;
pub mod clock;
pub mod visitor;
pub mod model;
pub mod sql;
pub mod db;
pub mod store;
pub mod config;
pub mod api;
pub mod dashboard;
pub mod accounting;
