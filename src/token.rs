use vstd::prelude::*;

use crate::address::Address;
use crate::error::ContractError;
use crate::tally::{lemma_amount_bounded, lemma_two_amounts_bounded, Tally};

verus! {

/// Number of decimal places of every asset this ledger keeps.
pub const DECIMALS: u32 = 7;

/// Name, symbol, precision and supply of the asset a ledger keeps.
pub struct TokenMetadata {
    pub name: String,
    pub symbol: String,
    pub decimals: u32,
    pub total_supply: i128,
}

/// A ledger of one fungible asset: its metadata and the balance of every
/// holder.
///
/// Balances are never negative, and once the ledger is initialized they
/// always add up to the total supply.
pub struct TokenContract {
    address: Address,
    metadata: Option<TokenMetadata>,
    balances: Tally,
}

/// The balance of `a` after `amount` moved from `from` to `to`, where `old`
/// was the balance of each holder before.
pub open spec fn balance_after_transfer(
    old: spec_fn(Address) -> int,
    from: Address,
    to: Address,
    amount: int,
    a: Address,
) -> int {
    if from == to {
        old(a)
    } else if a == from {
        old(a) - amount
    } else if a == to {
        old(a) + amount
    } else {
        old(a)
    }
}

impl TokenContract {
    /// The ledger's internal invariant.
    pub closed spec fn wf(&self) -> bool {
        &&& self.balances.wf()
        &&& match self.metadata {
            Some(m) => {
                &&& m.total_supply > 0
                &&& m.decimals == DECIMALS
                &&& self.balances.spec_total() == m.total_supply
            },
            None => self.balances.spec_total() == 0,
        }
    }

    /// The identity under which the ledger itself is addressed.
    pub closed spec fn spec_address(&self) -> Address {
        self.address
    }

    /// The metadata, once `initialize` has set it.
    pub closed spec fn spec_metadata(&self) -> Option<TokenMetadata> {
        self.metadata
    }

    /// The balance of `a`; 0 for a holder that never received anything.
    pub closed spec fn balance_of(&self, a: Address) -> int {
        self.balances.spec_amount(a)
    }

    /// The sum of all balances.
    pub closed spec fn supply(&self) -> int {
        self.balances.spec_total()
    }

    /// The balance of every holder, as a function.
    pub open spec fn balances(&self) -> spec_fn(Address) -> int {
        |a: Address| self.balance_of(a)
    }

    /// Why `transfer(from, _, amount)` is refused, if it is.
    pub open spec fn transfer_error(&self, from: Address, amount: i128) -> Option<ContractError> {
        if amount <= 0 {
            Some(ContractError::InvalidAmount)
        } else if self.balance_of(from) < amount {
            Some(ContractError::InsufficientBalance)
        } else {
            None
        }
    }

    /// Balances of a well-formed ledger are never negative, and add up to
    /// its supply, which is 0 before initialization and the total supply
    /// after.
    pub proof fn lemma_wf_facts(&self, a: Address)
        requires
            self.wf(),
        ensures
            0 <= self.balance_of(a) <= self.supply(),
            self.supply() <= i128::MAX,
            match self.spec_metadata() {
                Some(m) => self.supply() == m.total_supply && m.decimals == DECIMALS,
                None => self.supply() == 0,
            },
    {
        lemma_amount_bounded(self.balances@, a);
    }

    /// An uninitialized ledger addressed as `address`, where every balance
    /// is 0.
    pub fn new(address: Address) -> (r: TokenContract)
        ensures
            r.wf(),
            r.spec_address() == address,
            r.spec_metadata().is_none(),
            forall|a: Address| r.balance_of(a) == 0,
    {
        TokenContract { address, metadata: None, balances: Tally::new() }
    }

    /// A ledger restored from its parts, if they are consistent: with
    /// metadata, a strictly positive supply of `DECIMALS` places that the
    /// balances add up to; without, balances that add up to 0.
    pub fn from_parts(address: Address, metadata: Option<TokenMetadata>, balances: Tally) -> (r:
        Option<TokenContract>)
        requires
            balances.wf(),
        ensures
            r is Some <==> match metadata {
                Some(m) => m.total_supply > 0 && m.decimals == DECIMALS && balances.spec_total()
                    == m.total_supply,
                None => balances.spec_total() == 0,
            },
            r matches Some(t) ==> {
                &&& t.wf()
                &&& t.spec_address() == address
                &&& t.spec_metadata() == metadata
                &&& forall|a: Address| #[trigger] t.balance_of(a) == balances.spec_amount(a)
            },
    {
        let sum = balances.total();
        let consistent = match &metadata {
            Some(m) => m.total_supply > 0 && m.decimals == DECIMALS && sum == m.total_supply,
            None => sum == 0,
        };
        if consistent {
            Some(TokenContract { address, metadata, balances })
        } else {
            None
        }
    }

    /// The metadata, once `initialize` has set it.
    pub fn metadata(&self) -> (r: &Option<TokenMetadata>)
        ensures
            *r == self.spec_metadata(),
    {
        &self.metadata
    }

    /// The balance of every holder.
    pub fn holdings(&self) -> (r: &Tally)
        requires
            self.wf(),
        ensures
            r.wf(),
            r.spec_total() == self.supply(),
            forall|a: Address| #[trigger] r.spec_amount(a) == self.balance_of(a),
    {
        &self.balances
    }

    /// The identity under which the ledger itself is addressed.
    pub fn address(&self) -> (r: Address)
        ensures
            r == self.spec_address(),
    {
        self.address
    }

    /// Sets the metadata and credits `admin` with the whole supply.
    ///
    /// Refused with `InvalidSupply` when `total_supply <= 0`, and otherwise
    /// with `AlreadyInitialized` when the metadata was already set.
    pub fn initialize(&mut self, admin: Address, name: String, symbol: String, total_supply: i128) -> (r: Result<(), ContractError>)
        requires
            old(self).wf(),
        ensures
            final(self).wf(),
            final(self).spec_address() == old(self).spec_address(),
            total_supply <= 0 ==> r == Err::<(), ContractError>(ContractError::InvalidSupply),
            total_supply > 0 && old(self).spec_metadata().is_some() ==> r == Err::<(), ContractError>(
                ContractError::AlreadyInitialized,
            ),
            total_supply > 0 && old(self).spec_metadata().is_none() ==> r is Ok,
            r is Err ==> *final(self) == *old(self),
            r is Ok ==> {
                &&& final(self).spec_metadata() == Some(
                    (TokenMetadata { name, symbol, decimals: DECIMALS, total_supply }),
                )
                &&& forall|a: Address| #[trigger]
                    final(self).balance_of(a) == if a == admin {
                        total_supply as int
                    } else {
                        0
                    }
            },
    {
        if total_supply <= 0 {
            return Err(ContractError::InvalidSupply);
        }
        if self.metadata.is_some() {
            return Err(ContractError::AlreadyInitialized);
        }
        let mut balances = Tally::new();
        balances.set(admin, total_supply);
        self.balances = balances;
        self.metadata = Some(TokenMetadata { name, symbol, decimals: DECIMALS, total_supply });
        Ok(())
    }

    /// The asset's name; `NotInitialized` before `initialize`.
    pub fn name(&self) -> (r: Result<String, ContractError>)
        ensures
            match self.spec_metadata() {
                Some(m) => r == Ok::<String, ContractError>(m.name),
                None => r == Err::<String, ContractError>(ContractError::NotInitialized),
            },
    {
        match &self.metadata {
            Some(m) => Ok(m.name.clone()),
            None => Err(ContractError::NotInitialized),
        }
    }

    /// The asset's symbol; `NotInitialized` before `initialize`.
    pub fn symbol(&self) -> (r: Result<String, ContractError>)
        ensures
            match self.spec_metadata() {
                Some(m) => r == Ok::<String, ContractError>(m.symbol),
                None => r == Err::<String, ContractError>(ContractError::NotInitialized),
            },
    {
        match &self.metadata {
            Some(m) => Ok(m.symbol.clone()),
            None => Err(ContractError::NotInitialized),
        }
    }

    /// The asset's number of decimal places; `NotInitialized` before
    /// `initialize`.
    pub fn decimals(&self) -> (r: Result<u32, ContractError>)
        requires
            self.wf(),
        ensures
            match self.spec_metadata() {
                Some(_) => r == Ok::<u32, ContractError>(DECIMALS),
                None => r == Err::<u32, ContractError>(ContractError::NotInitialized),
            },
    {
        match &self.metadata {
            Some(m) => Ok(m.decimals),
            None => Err(ContractError::NotInitialized),
        }
    }

    /// The asset's total supply; `NotInitialized` before `initialize`.
    pub fn total_supply(&self) -> (r: Result<i128, ContractError>)
        ensures
            match self.spec_metadata() {
                Some(m) => r == Ok::<i128, ContractError>(m.total_supply),
                None => r == Err::<i128, ContractError>(ContractError::NotInitialized),
            },
    {
        match &self.metadata {
            Some(m) => Ok(m.total_supply),
            None => Err(ContractError::NotInitialized),
        }
    }

    /// The balance of `id`; 0 for a holder that never received anything.
    pub fn balance(&self, id: Address) -> (r: i128)
        requires
            self.wf(),
        ensures
            r == self.balance_of(id),
    {
        self.balances.get(id)
    }

    /// Moves `amount` from `from` to `to`.
    ///
    /// Refused with `InvalidAmount` when `amount <= 0`, and otherwise with
    /// `InsufficientBalance` when `from` holds less than `amount`. A transfer
    /// from a holder to itself leaves its balance as it was.
    pub fn transfer(&mut self, from: Address, to: Address, amount: i128) -> (r: Result<(), ContractError>)
        requires
            old(self).wf(),
        ensures
            final(self).wf(),
            final(self).spec_address() == old(self).spec_address(),
            final(self).spec_metadata() == old(self).spec_metadata(),
            r == match old(self).transfer_error(from, amount) {
                Some(e) => Err::<(), ContractError>(e),
                None => Ok(()),
            },
            r is Err ==> *final(self) == *old(self),
            r is Ok ==> forall|a: Address| #[trigger]
                final(self).balance_of(a) == balance_after_transfer(
                    old(self).balances(),
                    from,
                    to,
                    amount as int,
                    a,
                ),
            final(self).supply() == old(self).supply(),
            final(self).balance_of(from) + final(self).balance_of(to) == old(self).balance_of(from)
                + old(self).balance_of(to),
            final(self).balance_of(from) >= 0,
            final(self).balance_of(to) >= 0,
    {
        proof {
            lemma_amount_bounded(self.balances@, from);
            lemma_amount_bounded(self.balances@, to);
        }
        if amount <= 0 {
            return Err(ContractError::InvalidAmount);
        }
        let from_balance = self.balances.get(from);
        if from_balance < amount {
            return Err(ContractError::InsufficientBalance);
        }
        if from == to {
            return Ok(());
        }
        let to_balance = self.balances.get(to);
        proof {
            lemma_two_amounts_bounded(self.balances@, from, to);
        }
        self.balances.set(from, from_balance - amount);
        self.balances.set(to, to_balance + amount);
        Ok(())
    }

    /// Same as `name`.
    pub fn get_name(&self) -> (r: Result<String, ContractError>)
        ensures
            match self.spec_metadata() {
                Some(m) => r == Ok::<String, ContractError>(m.name),
                None => r == Err::<String, ContractError>(ContractError::NotInitialized),
            },
    {
        self.name()
    }

    /// Same as `symbol`.
    pub fn get_symbol(&self) -> (r: Result<String, ContractError>)
        ensures
            match self.spec_metadata() {
                Some(m) => r == Ok::<String, ContractError>(m.symbol),
                None => r == Err::<String, ContractError>(ContractError::NotInitialized),
            },
    {
        self.symbol()
    }

    /// Same as `total_supply`.
    pub fn get_total_supply(&self) -> (r: Result<i128, ContractError>)
        ensures
            match self.spec_metadata() {
                Some(m) => r == Ok::<i128, ContractError>(m.total_supply),
                None => r == Err::<i128, ContractError>(ContractError::NotInitialized),
            },
    {
        self.total_supply()
    }
}

} // verus!
