//! Typed client library for a home-automation bridge's HTTP API.
//!
//! The library is layered: [`json`] models the JSON documents exchanged with
//! the bridge, [`client`] holds the wire types and translates each bridge
//! operation into a request (method, URL, body) and an interpretation of the
//! response (status, body), [`switch`] is the typed handle for one switch
//! accessory, and [`kit`] is the facade that owns the client and produces
//! handles. The HTTP transport itself lives outside the library; a caller
//! performs each round trip and hands the status and body back to the
//! response readers.

pub mod client;
pub mod json;
pub mod kit;
pub mod switch;
