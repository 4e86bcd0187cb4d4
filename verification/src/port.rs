//! Ports: process-wide messaging endpoints named by a 64-bit identifier.
//!
//! The VM is the source of truth for a port's validity; the layer holds only
//! the opaque identifier.  The one rule the layer itself enforces is the
//! registration outcome: the distinguished identifier `0` is the VM's
//! "invalid port" answer and must never be handed out as an open port.

use vstd::prelude::*;

verus! {

/// A 64-bit identifier naming a messaging endpoint.  `0` is the
/// distinguished invalid-port sentinel.
#[derive(Clone, Copy, Debug, PartialEq, Eq, Structural)]
pub struct Port(i64);

impl Port {
    /// The identifier the VM knows this port by.
    pub closed spec fn spec_id(self) -> i64 {
        self.0
    }

    /// The identifier, for handing back to the VM's messaging calls.
    pub fn id(&self) -> (r: i64)
        ensures
            r == self.spec_id(),
    {
        self.0
    }

    /// A port is invalid exactly when it carries the sentinel identifier.
    pub fn is_invalid(&self) -> (r: bool)
        ensures
            r == (self.spec_id() == 0),
    {
        self.0 == 0
    }

    /// The distinguished invalid port.
    pub fn invalid() -> (r: Port)
        ensures
            r.spec_id() == 0,
    {
        Port(0)
    }

    /// The registration outcome for a native port: the VM answers with a raw
    /// identifier, and the sentinel means the registration failed.  An open
    /// port therefore always carries a nonzero identifier.
    pub fn make_native_port(raw_id: i64) -> (r: Option<Port>)
        ensures
            r is Some <==> raw_id != 0,
            r is Some ==> r->0.spec_id() == raw_id && r->0.spec_id() != 0,
    {
        let port = Port(raw_id);
        if port.is_invalid() {
            None
        } else {
            Some(port)
        }
    }
}

/// The port-lifecycle rule: registration never hands out the invalid port.
/// Whatever identifier the VM answers with, an open port is nonzero, and a
/// failed registration is reported as `None` rather than as a sentinel port.
pub proof fn lemma_open_port_is_never_invalid(raw_id: i64, r: Option<Port>)
    requires
        r is Some <==> raw_id != 0,
        r is Some ==> r->0.spec_id() == raw_id,
    ensures
        r is Some ==> r->0.spec_id() != 0,
{
}

} // verus!
