//! The typed handle for one switch accessory.
//!
//! A `Switch` binds an accessory's immutable configuration to the client it
//! operates through. The handle does no I/O itself: for each live operation
//! it builds the URL (and, for `set`, the body) and reads the response the
//! caller's transport brings back. `delete` consumes the handle, so a deleted
//! switch cannot be used again.

use vstd::prelude::*;
use crate::client::{
    BridgeError, HomebridgeClient, SwitchConfig, SwitchConfigV, SwitchState, SwitchStateV,
    decode_switch_state, read_state_response, spec_is_success, state_json, state_of_body,
    state_of_json, switch_state_body,
};
use crate::json::json_of;

verus! {

/// What the state response body decodes to for a switch: the envelope's
/// `state` field, read as the switch-state shape.
pub open spec fn switch_state_of_body(body: Seq<u8>) -> Option<SwitchStateV> {
    match state_of_body(body) {
        Some(inner) => state_of_json(inner),
        None => None,
    }
}

/// A typed handle for one switch accessory: immutable configuration plus the
/// client that operates on it.
pub struct Switch {
    config: SwitchConfig,
    client: HomebridgeClient,
}

impl Switch {
    /// The handle's configuration.
    pub closed spec fn config_view(&self) -> SwitchConfigV {
        self.config@
    }

    /// The host of the client the handle operates through.
    pub closed spec fn host_view(&self) -> Seq<char> {
        self.client.host_view()
    }

    pub(crate) fn new(config: SwitchConfig, client: HomebridgeClient) -> (r: Self)
        ensures
            r.config_view() == config@,
            r.host_view() == client.host_view(),
    {
        Switch { config, client }
    }

    /// The switch's id. A pure accessor over local state: no I/O.
    pub fn id(&self) -> (r: &str)
        ensures
            r@ == self.config_view().id,
    {
        self.config.id.as_str()
    }

    /// The switch's display name. A pure accessor over local state: no I/O.
    pub fn name(&self) -> (r: &str)
        ensures
            r@ == self.config_view().name,
    {
        self.config.name.as_str()
    }

    /// The URL polled by `is_on` and targeted by `set`.
    pub fn state_url(&self) -> (r: String)
        ensures
            r@ == self.host_view() + "/accessory/"@ + self.config_view().id + "/state"@,
    {
        self.client.state_url(self.config.id.as_str())
    }

    /// The body of a `set` request: the raw state document for the flag, not
    /// wrapped in the envelope the read side uses.
    pub fn set_body(&self, on: bool) -> (r: Vec<u8>)
        ensures
            json_of(r@) == Some(state_json(on)),
    {
        switch_state_body(on)
    }

    /// Reads the response of polling the switch's state.
    pub fn read_poll_response(status: u16, body: &[u8]) -> (r: Result<SwitchState, BridgeError>)
        ensures
            !spec_is_success(status) ==> (r matches Err(e) && e == (BridgeError::RequestFailed {
                status,
            })),
            spec_is_success(status) ==> match switch_state_of_body(body@) {
                Some(sv) => r matches Ok(s) && s@ == sv,
                None => r matches Err(e) && e is DecodeError,
            },
    {
        match read_state_response(status, body) {
            Ok(inner) => match decode_switch_state(&inner) {
                Some(s) => Ok(s),
                None => Err(BridgeError::DecodeError),
            },
            Err(e) => Err(e),
        }
    }

    /// Reads the response of `is_on`: the `on` flag of the polled state.
    pub fn read_is_on_response(status: u16, body: &[u8]) -> (r: Result<bool, BridgeError>)
        ensures
            !spec_is_success(status) ==> (r matches Err(e) && e == (BridgeError::RequestFailed {
                status,
            })),
            spec_is_success(status) ==> match switch_state_of_body(body@) {
                Some(sv) => r matches Ok(b) && b == sv.on,
                None => r matches Err(e) && e is DecodeError,
            },
    {
        match Self::read_poll_response(status, body) {
            Ok(s) => Ok(s.on),
            Err(e) => Err(e),
        }
    }

    /// Consumes the handle and hands back the URL its accessory is deleted
    /// at. Taking the handle by value is the point: once deleted, a switch
    /// cannot be polled, set or deleted again.
    pub fn delete(self) -> (r: String)
        ensures
            r@ == self.host_view() + "/accessory/"@ + self.config_view().id,
    {
        self.client.accessory_url(self.config.id.as_str())
    }
}

} // verus!
