//! Messages from the subnet service, which tracks the attestation subnets the
//! node should be subscribed to.
use vstd::prelude::*;

verus! {

/// An attestation subnet.
#[derive(Clone, Copy, Debug, PartialEq, Eq, Structural)]
pub struct SubnetId(pub u64);

/// A request to find peers on a subnet, until an optional deadline (in
/// seconds on the node's clock).
#[derive(Clone, Copy, Debug, PartialEq, Eq, Structural)]
pub struct SubnetDiscovery {
    pub subnet: SubnetId,
    pub min_ttl: Option<u64>,
}

#[derive(Debug, Clone)]
pub enum SubnetServiceMessage {
    /// Subscribe to the specified subnet id.
    Subscribe(SubnetId),
    /// Unsubscribe to the specified subnet id.
    Unsubscribe(SubnetId),
    /// Add the `SubnetId` to the ENR bitfield.
    EnrAdd(SubnetId),
    /// Remove the `SubnetId` from the ENR bitfield.
    EnrRemove(SubnetId),
    /// Discover peers for a list of `SubnetDiscovery`.
    DiscoverPeers(Vec<SubnetDiscovery>),
}

/// Two messages are equal when they are of the same kind and carry the same
/// subnets and deadlines.
pub open spec fn same_message(a: SubnetServiceMessage, b: SubnetServiceMessage) -> bool {
    match (a, b) {
        (SubnetServiceMessage::Subscribe(x), SubnetServiceMessage::Subscribe(y)) => x == y,
        (SubnetServiceMessage::Unsubscribe(x), SubnetServiceMessage::Unsubscribe(y)) => x == y,
        (SubnetServiceMessage::EnrAdd(x), SubnetServiceMessage::EnrAdd(y)) => x == y,
        (SubnetServiceMessage::EnrRemove(x), SubnetServiceMessage::EnrRemove(y)) => x == y,
        (SubnetServiceMessage::DiscoverPeers(x), SubnetServiceMessage::DiscoverPeers(y)) => x@
            == y@,
        _ => false,
    }
}

impl PartialEq for SubnetServiceMessage {
    fn eq(&self, other: &SubnetServiceMessage) -> (r: bool)
        ensures
            r == same_message(*self, *other),
    {
        match (self, other) {
            (SubnetServiceMessage::Subscribe(a), SubnetServiceMessage::Subscribe(b)) => a == b,
            (SubnetServiceMessage::Unsubscribe(a), SubnetServiceMessage::Unsubscribe(b)) => a == b,
            (SubnetServiceMessage::EnrAdd(a), SubnetServiceMessage::EnrAdd(b)) => a == b,
            (SubnetServiceMessage::EnrRemove(a), SubnetServiceMessage::EnrRemove(b)) => a == b,
            (SubnetServiceMessage::DiscoverPeers(a), SubnetServiceMessage::DiscoverPeers(b)) => {
                if a.len() != b.len() {
                    return false;
                }
                let mut i: usize = 0;
                while i < a.len()
                    invariant
                        *self matches SubnetServiceMessage::DiscoverPeers(x) && x@ == a@,
                        *other matches SubnetServiceMessage::DiscoverPeers(y) && y@ == b@,
                        a@.len() == b@.len(),
                        i <= a@.len(),
                        forall|j: int| 0 <= j < i ==> a@[j] == b@[j],
                    decreases a@.len() - i,
                {
                    let same_ttl = match (a[i].min_ttl, b[i].min_ttl) {
                        (Some(x), Some(y)) => x == y,
                        (None, None) => true,
                        _ => false,
                    };
                    if a[i].subnet.0 != b[i].subnet.0 || !same_ttl {
                        assert(a@[i as int] != b@[i as int]);
                        assert(a@ != b@);
                        return false;
                    }
                    i = i + 1;
                }
                assert(a@ =~= b@);
                true
            },
            _ => false,
        }
    }
}

impl vstd::std_specs::cmp::PartialEqSpecImpl for SubnetServiceMessage {
    open spec fn obeys_eq_spec() -> bool {
        true
    }

    open spec fn eq_spec(&self, other: &SubnetServiceMessage) -> bool {
        same_message(*self, *other)
    }
}

} // verus!
