use vstd::prelude::*;

verus! {

/// An authenticatable principal: a campaign owner, a donor, a ledger admin,
/// or the account of a contract itself.
#[derive(Clone, Copy, Debug, PartialEq, Eq, Structural, Hash)]
pub struct Address {
    pub id: u64,
}

impl Address {
    pub fn new(id: u64) -> (r: Address)
        ensures
            r.id == id,
    {
        Address { id }
    }
}

} // verus!
