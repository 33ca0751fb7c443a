//! The topic an entity's state is published on.
use vstd::prelude::*;

verus! {

/// An entity whose current state is published to a topic.
///
/// Some entity kinds hold their state topic as an optional field;
/// asking such an entity for its topic is only allowed when one is set,
/// which `spec_has_topic` captures.
pub trait State: Sized {
    /// Whether a state topic is set.
    spec fn spec_has_topic(&self) -> bool;

    /// The state topic, when one is set.
    spec fn spec_topic(&self) -> Seq<char>;

    fn state_topic(&self) -> (r: &str)
        requires
            self.spec_has_topic(),
        ensures
            r@ == self.spec_topic(),
    ;
}

} // verus!
