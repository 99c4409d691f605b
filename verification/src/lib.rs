//! The decisions of a gateway between protocol adapters, which report devices
//! over HTTP, and a declarative store that holds an asset for each discovered
//! device and scheduled jobs with a capacity.
//!
//! The library decides and never performs: a handler says which request is
//! to be sent to the store, or which records are to be read, and goes on when
//! it is handed the answer. [`restapihttpserver`] holds the routes and the
//! handlers, [`reconcile`] the idempotent create-or-update, [`store`] the
//! requests and replies with a model of a faithful store, and [`events`] what
//! follows for events that are served one after another.
pub mod adrasset;
pub mod credential;
pub mod crontab;
pub mod digest;
pub mod events;
pub mod properties;
pub mod reconcile;
pub mod restapihttpserver;
pub mod store;
pub mod text;
