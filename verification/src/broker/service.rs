//! The service that the handlers belong to.

use vstd::prelude::*;

use crate::broker::types::MqttProtocol;

verus! {

/// The handlers of the packets of one protocol version.
#[derive(Debug, Clone, Copy, PartialEq, Eq, Structural)]
pub struct MqttService {
    pub protocol: MqttProtocol,
}

impl MqttService {
    pub fn new(protocol: MqttProtocol) -> (r: Self)
        ensures
            r.protocol == protocol,
    {
        MqttService { protocol }
    }
}

} // verus!
