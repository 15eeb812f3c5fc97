//! A read-only view of a peer-to-peer mesh network's topology.
//!
//! A mesh instance hands out snapshots of its peers, routes and connection
//! statistics. From a snapshot this library pairs routes with peers
//! (`pairing`), reconstructs the hop path to any node (`path`), rolls up
//! latency, loss and NAT classification (`metrics`), derives the node list
//! shown to a user (`status`), and lays the snapshot out as a document
//! (`document`) that reads back as the same snapshot (`reading`,
//! `round_trip`). The routing table of a snapshot is never trusted: cycles
//! and dangling next hops shorten a path, they do not stop the library.
//!
//! Instances are kept in a `registry`; the accessors in `instance` and
//! `registry` answer for the current one. `config` and `platform` hold the
//! decisions behind starting an instance and behind the platform
//! facilities, which the caller carries out.
//!
//! Loss rates are single-precision fractions. The library carries them by
//! bit pattern and leaves their arithmetic to the caller: a rollup names the
//! terms to add and the number to divide by.

pub mod config;
pub mod document;
pub mod instance;
pub mod metrics;
pub mod model;
pub mod pairing;
pub mod path;
pub mod platform;
pub mod reading;
pub mod registry;
pub mod round_trip;
pub mod status;
pub mod text;
