//! Announcement topics for Home Assistant's MQTT discovery.
//!
//! Publishing the announcement payload itself is the surrounding
//! runtime's work; the topic it must be published on is computed, and
//! verified, here.
use vstd::prelude::*;

verus! {

use vstd::string::StringExecFns;

/// The discovery topic for one entity:
/// `<prefix>/<component>/<node_id>/<object_id>/config`.
pub open spec fn spec_discovery_topic(
    prefix: Seq<char>,
    component: Seq<char>,
    node_id: Seq<char>,
    object_id: Seq<char>,
) -> Seq<char> {
    prefix + "/"@ + component + "/"@ + node_id + "/"@ + object_id + "/config"@
}

/// An entity kind that can announce itself for discovery.
pub trait Discovery: Sized {
    /// The component path segment of this entity kind.
    spec fn spec_component() -> Seq<char>;

    /// The entity's object id.
    spec fn spec_object_id(&self) -> Seq<char>;

    fn component() -> (r: &'static str)
        ensures
            r@ == Self::spec_component(),
    ;

    fn object_id(&self) -> (r: &str)
        ensures
            r@ == self.spec_object_id(),
    ;

    /// The topic this entity's discovery announcement is published on.
    fn topic(&self, discovery_prefix: &str, node_id: &str) -> (r: String)
        ensures
            r@ == spec_discovery_topic(
                discovery_prefix@,
                Self::spec_component(),
                node_id@,
                self.spec_object_id(),
            ),
    {
        // https://www.home-assistant.io/integrations/mqtt#discovery-messages
        let mut r = discovery_prefix.to_owned();
        r.append("/");
        r.append(Self::component());
        r.append("/");
        r.append(node_id);
        r.append("/");
        r.append(self.object_id());
        r.append("/config");
        proof {
            assert(r@ =~= spec_discovery_topic(
                discovery_prefix@,
                Self::spec_component(),
                node_id@,
                self.spec_object_id(),
            ));
        }
        r
    }
}

} // verus!
