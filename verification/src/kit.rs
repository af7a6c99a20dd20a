//! The facade: the entry point that owns one bridge client and produces
//! switch handles.
//!
//! `connect` binds the client to a host without touching the network. The
//! operations that need a round trip are split: the facade carries their
//! decisions (which accessory becomes a handle, in what order), the caller's
//! transport carries the bytes.

use vstd::prelude::*;
use crate::client::{
    Accessory, AccessoryV, HomebridgeClient, SwitchConfig, SwitchConfigV, accessory_views,
};
use crate::switch::Switch;

verus! {

/// The configurations of the Switch-kind accessories, in the order given;
/// accessories of any other kind are left out.
pub open spec fn switch_configs_of(s: Seq<AccessoryV>) -> Seq<SwitchConfigV> {
    s.filter(|a: AccessoryV| a is Switch).map_values(|a: AccessoryV| a->Switch_0.config)
}

/// The configurations a sequence of handles carries, in order.
pub open spec fn handle_configs(s: Seq<Switch>) -> Seq<SwitchConfigV> {
    s.map_values(|h: Switch| h.config_view())
}

proof fn lemma_filter_all<A>(s: Seq<A>, pred: spec_fn(A) -> bool)
    requires
        forall|i: int| 0 <= i < s.len() ==> pred(#[trigger] s[i]),
    ensures
        s.filter(pred) == s,
    decreases s.len(),
{
    reveal(Seq::filter);
    if s.len() > 0 {
        lemma_filter_all(s.drop_last(), pred);
        assert(s.drop_last().push(s.last()) =~= s);
    }
}

/// The entry point: owns one bridge client, hides the wire model, and
/// produces the typed handles.
pub struct HomeKit {
    homebridge: HomebridgeClient,
}

impl HomeKit {
    /// The host every operation is addressed to.
    pub closed spec fn host_view(&self) -> Seq<char> {
        self.homebridge.host_view()
    }

    /// Binds a client to the bridge host. No network contact happens here:
    /// connectivity is first exercised by the first real operation.
    pub fn connect(homebridge_host: &str) -> (r: Self)
        ensures
            r.host_view() == homebridge_host@,
    {
        HomeKit { homebridge: HomebridgeClient::new(homebridge_host) }
    }

    /// The client, for the caller's transport to take URLs, bodies and
    /// response readings from.
    pub fn client(&self) -> (r: &HomebridgeClient)
        ensures
            r.host_view() == self.host_view(),
    {
        &self.homebridge
    }

    /// The handle for a configuration that was just registered: `add_switch`
    /// is one create round trip followed by this, binding the same
    /// configuration without re-fetching it from the bridge.
    pub fn switch_handle(&self, config: SwitchConfig) -> (r: Switch)
        ensures
            r.config_view() == config@,
            r.host_view() == self.host_view(),
    {
        Switch::new(config, self.homebridge.clone())
    }

    /// The decision half of `get_switch`: a fetched accessory becomes a
    /// handle when it is of the Switch kind; any other kind is silently
    /// discarded, never an error.
    pub fn switch_of_accessory(&self, accessory: Accessory) -> (r: Option<Switch>)
        ensures
            match r {
                Some(s) => accessory@ matches AccessoryV::Switch(d) && s.config_view() == d.config
                    && s.host_view() == self.host_view(),
                None => !(accessory@ is Switch),
            },
    {
        match accessory {
            Accessory::Switch(decl) => Some(Switch::new(decl.config, self.homebridge.clone())),
        }
    }

    /// The decision half of `switches`: every listed accessory of the Switch
    /// kind becomes a handle, in the server's order; accessories of any
    /// other kind are silently discarded.
    #[verifier::loop_isolation(false)]
    pub fn switches(&self, accessories: Vec<Accessory>) -> (r: Vec<Switch>)
        ensures
            handle_configs(r@) == switch_configs_of(accessory_views(accessories@)),
            forall|i: int| 0 <= i < r@.len() ==> (#[trigger] r@[i]).host_view() == self.host_view(),
    {
        let ghost views = accessory_views(accessories@);
        let n = accessories.len();
        let mut switches: Vec<Switch> = Vec::new();
        let mut i: usize = 0;
        while i < n
            invariant
                i <= n,
                switches@.len() == i,
                forall|k: int|
                    0 <= k < i ==> (#[trigger] switches@[k]).config_view() == views[k]->Switch_0.config
                        && switches@[k].host_view() == self.host_view(),
            decreases n - i,
        {
            match &accessories[i] {
                Accessory::Switch(decl) => {
                    switches.push(Switch::new(decl.config.clone(), self.homebridge.clone()));
                },
            }
            i += 1;
        }
        proof {
            assert(forall|k: int| 0 <= k < views.len() ==> (#[trigger] views[k]) is Switch);
            lemma_filter_all(views, |a: AccessoryV| a is Switch);
            assert(handle_configs(switches@) =~= switch_configs_of(views));
        }
        switches
    }
}

} // verus!
