//! The MQTT topics of one meter instance.

use vstd::prelude::*;

use crate::text::join3;

verus! {

/// The three topic strings as mathematical sequences.
pub struct TopicsView {
    pub state: Seq<char>,
    pub discovery_in: Seq<char>,
    pub discovery_out: Seq<char>,
}

/// Topic on which readings are published: `d0bby/{identifier}/state`.
pub open spec fn state_topic(identifier: Seq<char>) -> Seq<char> {
    "d0bby/"@ + identifier + "/state"@
}

/// Topic announcing the sensor of imported energy:
/// `homeassistant/sensor/d0bby/{identifier}_in/config`.
pub open spec fn discovery_in_topic(identifier: Seq<char>) -> Seq<char> {
    "homeassistant/sensor/d0bby/"@ + identifier + "_in/config"@
}

/// Topic announcing the sensor of exported energy:
/// `homeassistant/sensor/d0bby/{identifier}_out/config`.
pub open spec fn discovery_out_topic(identifier: Seq<char>) -> Seq<char> {
    "homeassistant/sensor/d0bby/"@ + identifier + "_out/config"@
}

/// The topic set that belongs to `identifier`.
pub open spec fn topics_of(identifier: Seq<char>) -> TopicsView {
    TopicsView {
        state: state_topic(identifier),
        discovery_in: discovery_in_topic(identifier),
        discovery_out: discovery_out_topic(identifier),
    }
}

/// The topics of one meter instance. They are fixed when the value is made.
pub struct Topics {
    state: String,
    discovery_in: String,
    discovery_out: String,
}

impl View for Topics {
    type V = TopicsView;

    closed spec fn view(&self) -> TopicsView {
        TopicsView {
            state: self.state@,
            discovery_in: self.discovery_in@,
            discovery_out: self.discovery_out@,
        }
    }
}

impl Topics {
    /// Derives the topic set from the instance identifier.
    pub fn new(identifier: &str) -> (topics: Topics)
        ensures
            topics@ == topics_of(identifier@),
    {
        Topics {
            state: join3("d0bby/", identifier, "/state"),
            discovery_in: join3("homeassistant/sensor/d0bby/", identifier, "_in/config"),
            discovery_out: join3("homeassistant/sensor/d0bby/", identifier, "_out/config"),
        }
    }

    /// Topic of the state messages.
    pub fn state(&self) -> (topic: &String)
        ensures
            topic@ == self@.state,
    {
        &self.state
    }

    /// Topic of the discovery message for imported energy.
    pub fn discovery_in(&self) -> (topic: &String)
        ensures
            topic@ == self@.discovery_in,
    {
        &self.discovery_in
    }

    /// Topic of the discovery message for exported energy.
    pub fn discovery_out(&self) -> (topic: &String)
        ensures
            topic@ == self@.discovery_out,
    {
        &self.discovery_out
    }
}

/// Topic derivation is a function of the identifier: two topic sets derived
/// from the same identifier agree in all three topics.
pub proof fn lemma_topics_deterministic(first: Topics, second: Topics, identifier: Seq<char>)
    requires
        first@ == topics_of(identifier),
        second@ == topics_of(identifier),
    ensures
        first@ == second@,
        first@.state == second@.state,
        first@.discovery_in == second@.discovery_in,
        first@.discovery_out == second@.discovery_out,
{
}

} // verus!
