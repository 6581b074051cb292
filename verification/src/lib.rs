//! Fetching one record of a broker log: the request a caller states, the
//! values handed to the broker client, and the protocol a fetch follows from
//! the first connection attempt to its single outcome.

pub mod broker;
pub mod fetcher;
pub mod laws;
pub mod model;

pub use crate::fetcher::{Action, ActionView, Event, EventView, Fetcher, FetcherView, Phase};
pub use crate::model::{
    ConfigView, ConnectionConfig, FetchError, FetchErrorView, LocationView, PartitionLocation,
};
