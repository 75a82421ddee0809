//! A message bundles a topic, a routing key and an opaque serialized
//! payload; purely a transport unit for a single publish call.

use crate::key::Key;
use crate::topic::Topic;
use vstd::prelude::*;

verus! {

/// One outbound event: where it goes, how it is routed, and its
/// already-serialized payload bytes.
pub struct Message {
    pub topic: Topic,
    pub key: Key,
    pub payload: Vec<u8>,
}

impl Message {
    pub fn new(topic: Topic, key: Key, payload: Vec<u8>) -> (m: Message)
        ensures
            m.topic == topic,
            m.key == key,
            m.payload@ == payload@,
    {
        Message { topic, key, payload }
    }
}

} // verus!
