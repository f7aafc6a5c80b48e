//! A local geocode request broker.
//!
//! A client posts a coordinate pair; the broker has one of several geocoding
//! providers resolve it, normalises the answer into one canonical address
//! record, may hold the record until an operator confirms or rejects it, and
//! answers the client.
//!
//! This crate is the broker's logic, on plain values: everything that is
//! decided between reading a request and writing its answer. Sockets, the
//! provider call itself, clocks, locks and windows belong to the program
//! around it.
//!
//! - [`text`] and [`normalizer`]: characters, administrative names, house
//!   numbers;
//! - [`record`]: the canonical record and its wire form;
//! - [`json`]: JSON documents, as `serde_json` holds them;
//! - [`payload`], [`google`] and [`goong`]: what payloads share, and the
//!   adapters;
//! - [`config`] and [`provider`]: the configuration, the request that goes
//!   out and the meaning of what comes back;
//! - [`broker`]: the requests that wait for the operator;
//! - [`intake`]: the application state and the phases of a request;
//! - [`mapview`]: the addresses of the map viewer.

pub mod broker;
pub mod config;
pub mod google;
pub mod goong;
pub mod intake;
pub mod json;
pub mod mapview;
pub mod normalizer;
pub mod payload;
pub mod provider;
pub mod record;
pub mod text;
