//! The subscription registry and the per-message dispatch decision.
//!
//! A registry is an ordered collection of parsed patterns, one per
//! subscription, in registration order. For each delivered message the
//! dispatch pass computes which subscriptions receive it: exactly those
//! whose pattern matches the message topic, each exactly once, in
//! registration order. Invoking the sinks themselves, and reading events
//! from the transport, is the surrounding runtime's work; the decisions
//! are made here.
use vstd::prelude::*;

verus! {

use crate::topic::{Pattern, PatternError, PatternSpec, pattern_matches, spec_parse, spec_parse_ok};

/// The ordered set of subscribed patterns, in registration order.
pub struct SubscriptionRegistry {
    patterns: Vec<Pattern>,
}

impl View for SubscriptionRegistry {
    type V = Seq<PatternSpec>;

    closed spec fn view(&self) -> Seq<PatternSpec> {
        self.patterns@.map_values(|p: Pattern| p@)
    }
}

impl SubscriptionRegistry {
    /// An empty registry.
    pub fn new() -> (r: Self)
        ensures
            r@.len() == 0,
    {
        SubscriptionRegistry { patterns: Vec::new() }
    }

    /// How many subscriptions are registered.
    pub fn len(&self) -> (n: usize)
        ensures
            n == self@.len(),
    {
        self.patterns.len()
    }

    /// Append one subscription. Earlier registrations keep their
    /// positions, so every pattern inserted before a dispatch pass is
    /// seen by that pass.
    pub fn insert(&mut self, pattern: Pattern)
        ensures
            final(self)@ =~= old(self)@.push(pattern@),
    {
        self.patterns.push(pattern);
    }

    /// Parse a filter and append it as a subscription.
    ///
    /// On a malformed filter the registry is left unchanged and the
    /// parse error is returned; the caller also issues the
    /// transport-level subscribe request on success.
    pub fn subscribe(&mut self, filter: &str) -> (r: Result<(), PatternError>)
        ensures
            r is Ok <==> spec_parse_ok(filter@),
            r is Ok ==> final(self)@ =~~= old(self)@.push(spec_parse(filter@)),
            r is Err ==> final(self)@ == old(self)@,
            r is Err ==> r == Result::<(), PatternError>::Err(
                PatternError::MultiLevelWildcardNotLastCharacter,
            ),
    {
        let pattern = Pattern::parse(filter)?;
        proof {
            assert(pattern@.parts =~~= spec_parse(filter@).parts);
        }
        self.insert(pattern);
        Ok(())
    }

    /// The subscriptions a message on `topic` is delivered to: the
    /// indices of exactly the matching patterns, in registration order,
    /// each exactly once.
    pub fn matching_indices(&self, topic: &str) -> (r: Vec<usize>)
        ensures
            forall|k: int|
                0 <= k < r@.len() ==> (#[trigger] r@[k]) < self@.len() && pattern_matches(
                    self@[r@[k] as int],
                    topic@,
                ),
            forall|k1: int, k2: int| 0 <= k1 < k2 < r@.len() ==> r@[k1] < r@[k2],
            forall|j: int|
                0 <= j < self@.len() && pattern_matches(#[trigger] self@[j], topic@)
                    ==> r@.contains(j as usize),
    {
        let mut r: Vec<usize> = Vec::new();
        let n = self.patterns.len();
        for i in 0..n
            invariant
                n == self@.len(),
                forall|k: int|
                    0 <= k < r@.len() ==> (#[trigger] r@[k]) < i && pattern_matches(
                        self@[r@[k] as int],
                        topic@,
                    ),
                forall|k1: int, k2: int| 0 <= k1 < k2 < r@.len() ==> r@[k1] < r@[k2],
                forall|j: int|
                    0 <= j < i && pattern_matches(#[trigger] self@[j], topic@) ==> r@.contains(
                        j as usize,
                    ),
        {
            if self.patterns[i].matches(topic) {
                let ghost old_r = r@;
                r.push(i);
                proof {
                    assert forall|j: int|
                        0 <= j < i + 1 && pattern_matches(#[trigger] self@[j], topic@) implies r@
                        .contains(j as usize) by {
                        if j == i {
                            assert(r@[r@.len() - 1] == i);
                        } else {
                            let k = choose|k: int|
                                0 <= k < old_r.len() && old_r[k] == j as usize;
                            assert(r@[k] == j as usize);
                        }
                    }
                }
            } else {
                proof {
                    assert(!pattern_matches(self@[i as int], topic@));
                }
            }
        }
        r
    }
}

/// One event delivered by the transport, as far as dispatch cares: an
/// incoming published message, or anything else (connection
/// acknowledgements, ping responses, outgoing echoes), which dispatch
/// ignores.
pub enum TransportEvent {
    Publish { topic: String, payload: Vec<u8>, retained: bool },
    Other,
}

/// What the dispatch loop does in reaction to one poll of the transport:
/// hand the message to the listed subscriptions, ignore the event, or
/// stop because the event stream has ended.
pub enum DispatchAction {
    Deliver(Vec<usize>),
    Ignore,
    Stop,
}

/// The decision the dispatch loop takes for one polled event.
///
/// `None` stands for a poll that found the event stream ended or failed,
/// which stops the loop. A published message is delivered to exactly the
/// subscriptions whose patterns match its topic, in registration order,
/// each exactly once; a failing sink is the caller's concern and must
/// not keep the remaining listed subscriptions from being served. Every
/// other event is ignored.
pub fn dispatch_step(registry: &SubscriptionRegistry, event: Option<&TransportEvent>) -> (a:
    DispatchAction)
    ensures
        event is None <==> a is Stop,
        match event {
            Option::Some(TransportEvent::Publish { topic, .. }) => match a {
                DispatchAction::Deliver(r) => {
                    &&& forall|k: int|
                        0 <= k < r@.len() ==> (#[trigger] r@[k]) < registry@.len()
                            && pattern_matches(registry@[r@[k] as int], topic@)
                    &&& forall|k1: int, k2: int| 0 <= k1 < k2 < r@.len() ==> r@[k1] < r@[k2]
                    &&& forall|j: int|
                        0 <= j < registry@.len() && pattern_matches(
                            #[trigger] registry@[j],
                            topic@,
                        ) ==> r@.contains(j as usize)
                },
                _ => false,
            },
            Option::Some(TransportEvent::Other) => a is Ignore,
            Option::None => true,
        },
{
    match event {
        Some(TransportEvent::Publish { topic, .. }) => DispatchAction::Deliver(
            registry.matching_indices(topic.as_str()),
        ),
        Some(TransportEvent::Other) => DispatchAction::Ignore,
        None => DispatchAction::Stop,
    }
}

} // verus!
