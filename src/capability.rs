use vstd::prelude::*;

use crate::ident::ProcessId;
use crate::message::Capability;

verus! {

/// Why capabilities could not be granted.
#[derive(Clone, Copy, Debug, PartialEq, Eq, Structural)]
pub enum CapabilityError {
    /// The caller does not hold its own messaging capability, which the host
    /// always grants; this is an internal fault, not an ordinary failure.
    MissingOwnMessagingCapability,
}

impl Capability {
    pub open spec fn same_fields(&self, other: &Capability) -> bool {
        &&& self.issuer.same_fields(&other.issuer)
        &&& self.params@ == other.params@
    }

    /// A copy with the same fields.
    pub fn duplicate(&self) -> (r: Capability)
        ensures
            r.same_fields(self),
    {
        Capability { issuer: self.issuer.duplicate(), params: self.params.clone() }
    }
}

/// The parameters of the messaging capability, as the host is asked for it.
pub fn messaging_params() -> (r: String)
    ensures
        r@ == "\"messaging\""@,
{
    String::from_str("\"messaging\"")
}

/// The shares to make so that each process of `grant_to` may message the
/// caller: one per process, in order, each with the caller's own messaging
/// capability `ours`. Without that capability nothing is shared.
pub fn grant_messaging(ours: Option<Capability>, grant_to: &Vec<ProcessId>) -> (r: Result<
    Vec<(ProcessId, Capability)>,
    CapabilityError,
>)
    ensures
        ours is None <==> r is Err,
        r is Err ==> r->Err_0 == CapabilityError::MissingOwnMessagingCapability,
        r is Ok ==> {
            let shares = r->Ok_0@;
            &&& shares.len() == grant_to@.len()
            &&& forall|i: int|
                0 <= i < shares.len() ==> {
                    &&& (#[trigger] shares[i]).0.same_fields(&grant_to@[i])
                    &&& shares[i].1.same_fields(&ours->Some_0)
                }
        },
{
    let cap = match ours {
        Some(c) => c,
        None => {
            return Err(CapabilityError::MissingOwnMessagingCapability);
        },
    };
    let mut shares: Vec<(ProcessId, Capability)> = Vec::new();
    let mut i: usize = 0;
    while i < grant_to.len()
        invariant
            i <= grant_to@.len(),
            shares@.len() == i,
            forall|j: int|
                0 <= j < i ==> {
                    &&& (#[trigger] shares@[j]).0.same_fields(&grant_to@[j])
                    &&& shares@[j].1.same_fields(&cap)
                },
        decreases grant_to@.len() - i,
    {
        shares.push((grant_to[i].duplicate(), cap.duplicate()));
        i = i + 1;
    }
    Ok(shares)
}

/// Whether the caller may message an address, given the messaging capability
/// it holds for that address, if any.
pub fn can_message(held: &Option<Capability>) -> (r: bool)
    ensures
        r == held is Some,
{
    held.is_some()
}

} // verus!
