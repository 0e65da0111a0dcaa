//! Events that the contract hands to the host for outside observers.
use vstd::prelude::*;

verus! {

/// A one-way notification with a topic and a payload.
#[derive(Clone, Copy, Debug, PartialEq, Eq, Structural)]
pub enum Event {
    /// The counter was set to the given value at deployment.
    Init(u32),
}

impl Event {
    /// The topic under which the event is published.
    pub open spec fn spec_topic(self) -> Seq<char> {
        match self {
            Event::Init(_) => "INIT"@,
        }
    }

    /// The value that the event carries.
    pub open spec fn spec_payload(self) -> u32 {
        match self {
            Event::Init(v) => v,
        }
    }

    /// The topic under which the event is published.
    pub fn topic(&self) -> (r: &'static str)
        ensures
            r@ == self.spec_topic(),
    {
        match self {
            Event::Init(_) => "INIT",
        }
    }

    /// The value that the event carries.
    pub fn payload(&self) -> (r: u32)
        ensures
            r == self.spec_payload(),
    {
        match self {
            Event::Init(v) => *v,
        }
    }
}

} // verus!
