//! Registration front door of a push-notification relay.
//!
//! A device registers a `(uuid, device id, password, endpoint)` quadruple. The
//! crate decides what becomes of such a registration: how it is resolved
//! against the record already stored for the uuid, what has to be written back,
//! and what is handed to the live-connection manager.
//!
//! Nothing here performs I/O. The store, the validators, the dispatch channel
//! and the reachability probe belong to the caller, which drives a
//! [`register::Registration`] by performing the [`register::Action`] it asks for
//! and answering with the matching [`register::Event`].

pub mod connection;
pub mod endpoint;
pub mod laws;
pub mod register;
pub mod resolve;
pub mod response;
pub mod session;
pub mod status;
pub mod store;
