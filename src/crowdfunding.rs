use vstd::prelude::*;

use crate::address::Address;
use crate::campaign::{spec_progress, Campaign, CampaignStatus};
use crate::error::ContractError;
use crate::token::{balance_after_transfer, TokenContract};

verus! {

/// The campaign engine: a registry of campaigns, indexed by the id that
/// `create_campaign` handed out, which holds donated assets in its own
/// account on each asset's ledger.
///
/// Campaign ids start at 0 and grow by one per campaign; campaigns are never
/// removed.
pub struct CrowdfundingContract {
    address: Address,
    campaigns: Vec<Campaign>,
}

impl View for CrowdfundingContract {
    type V = Seq<Campaign>;

    /// The campaigns, the one with id `i` at position `i`.
    closed spec fn view(&self) -> Seq<Campaign> {
        self.campaigns@
    }
}

impl CrowdfundingContract {
    /// Every campaign is well formed and every id fits in a `u64`.
    pub open spec fn wf(&self) -> bool {
        &&& forall|i: int| 0 <= i < self@.len() ==> (#[trigger] self@[i]).wf()
        &&& self@.len() <= u64::MAX
    }

    /// The identity under which the engine holds donated assets.
    pub closed spec fn spec_address(&self) -> Address {
        self.address
    }

    /// Why `create_campaign` is refused, if it is.
    pub open spec fn create_error(&self, now: u64, goal: i128, deadline: u64) -> Option<
        ContractError,
    > {
        if goal <= 0 {
            Some(ContractError::InvalidGoal)
        } else if deadline <= now {
            Some(ContractError::InvalidDeadline)
        } else if self@.len() >= u64::MAX {
            Some(ContractError::Overflow)
        } else {
            None
        }
    }

    /// Why `donate` is refused before the asset is moved, if it is.
    pub open spec fn donate_error(&self, now: u64, campaign_id: u64, amount: i128) -> Option<
        ContractError,
    > {
        if amount <= 0 {
            Some(ContractError::InvalidAmount)
        } else if campaign_id >= self@.len() {
            Some(ContractError::CampaignNotFound)
        } else if self@[campaign_id as int].ended_at(now) {
            Some(ContractError::CampaignEnded)
        } else if self@[campaign_id as int].raised + amount > i128::MAX {
            Some(ContractError::Overflow)
        } else {
            None
        }
    }

    /// Why `refund` is refused before the asset is moved, if it is.
    pub open spec fn refund_error(&self, now: u64, campaign_id: u64, donor: Address) -> Option<
        ContractError,
    > {
        if campaign_id >= self@.len() {
            Some(ContractError::CampaignNotFound)
        } else if !self@[campaign_id as int].ended_at(now) {
            Some(ContractError::CampaignNotEnded)
        } else if self@[campaign_id as int].goal_reached() {
            Some(ContractError::GoalReached)
        } else if self@[campaign_id as int].donation_of(donor) <= 0 {
            Some(ContractError::NoRefundableDonation)
        } else {
            None
        }
    }

    /// A campaign whose deadline has passed with its goal reached accepts
    /// neither donations nor refunds, and refused operations change nothing:
    /// its outcome is final.
    pub proof fn lemma_success_is_final(&self, now: u64, campaign_id: u64, donor: Address, amount: i128)
        requires
            self.wf(),
            campaign_id < self@.len(),
            self@[campaign_id as int].status_at(now) == CampaignStatus::Succeeded,
            amount > 0,
        ensures
            self.refund_error(now, campaign_id, donor) == Some(ContractError::GoalReached),
            self.donate_error(now, campaign_id, amount) == Some(ContractError::CampaignEnded),
    {
    }

    /// An engine with no campaign, holding assets as `address`.
    pub fn new(address: Address) -> (r: CrowdfundingContract)
        ensures
            r.wf(),
            r@.len() == 0,
            r.spec_address() == address,
    {
        CrowdfundingContract { address, campaigns: Vec::new() }
    }

    /// An engine restored from its campaigns, the one with id `i` at
    /// position `i`, if every one of them is well formed.
    pub fn from_campaigns(address: Address, campaigns: Vec<Campaign>) -> (r: Option<
        CrowdfundingContract,
    >)
        ensures
            r is Some <==> forall|i: int| 0 <= i < campaigns@.len() ==> (#[trigger] campaigns@[i]).wf(),
            r matches Some(e) ==> e.wf() && e@ == campaigns@ && e.spec_address() == address,
    {
        let mut i: usize = 0;
        while i < campaigns.len()
            invariant
                i <= campaigns@.len(),
                forall|j: int| 0 <= j < i ==> (#[trigger] campaigns@[j]).wf(),
            decreases campaigns@.len() - i,
        {
            let c = &campaigns[i];
            if !c.donations.check() || c.goal <= 0 || c.raised != c.donations.total() {
                return None;
            }
            i = i + 1;
        }
        Some(CrowdfundingContract { address, campaigns })
    }

    /// The campaigns, the one with id `i` at position `i`.
    pub fn campaigns(&self) -> (r: &Vec<Campaign>)
        ensures
            r@ == self@,
    {
        &self.campaigns
    }

    /// The identity under which the engine holds donated assets.
    pub fn address(&self) -> (r: Address)
        ensures
            r == self.spec_address(),
    {
        self.address
    }

    /// Creates a campaign at time `now` and returns its id, the next one in
    /// sequence.
    ///
    /// Refused with `InvalidGoal` when `goal <= 0`, then with
    /// `InvalidDeadline` when `deadline <= now`, then with `Overflow` when
    /// every `u64` id is taken.
    pub fn create_campaign(
        &mut self,
        now: u64,
        owner: Address,
        goal: i128,
        deadline: u64,
        token: Address,
    ) -> (r: Result<u64, ContractError>)
        requires
            old(self).wf(),
        ensures
            final(self).wf(),
            final(self).spec_address() == old(self).spec_address(),
            r == match old(self).create_error(now, goal, deadline) {
                Some(e) => Err::<u64, ContractError>(e),
                None => Ok(old(self)@.len() as u64),
            },
            r is Err ==> final(self)@ == old(self)@,
            r is Ok ==> {
                let c = final(self)@.last();
                &&& final(self)@.len() == old(self)@.len() + 1
                &&& final(self)@.drop_last() == old(self)@
                &&& c.owner == owner
                &&& c.goal == goal
                &&& c.deadline == deadline
                &&& c.token == token
                &&& c.raised == 0
                &&& forall|d: Address| #[trigger] c.donation_of(d) == 0
            },
    {
        if goal <= 0 {
            return Err(ContractError::InvalidGoal);
        }
        if deadline <= now {
            return Err(ContractError::InvalidDeadline);
        }
        let id = self.campaigns.len();
        if id as u64 == u64::MAX {
            return Err(ContractError::Overflow);
        }
        let ghost before = self@;
        self.campaigns.push(Campaign::new(owner, goal, deadline, token));
        assert(self@.drop_last() =~= before);
        Ok(id as u64)
    }

    /// Checks, at time `now`, a donation of `amount` to campaign
    /// `campaign_id`, without changing anything: on success returns the
    /// ledger of the campaign's asset, on which the amount is to be moved
    /// before `record_donation`.
    pub fn check_donation(&self, now: u64, campaign_id: u64, amount: i128) -> (r: Result<
        Address,
        ContractError,
    >)
        ensures
            r == match self.donate_error(now, campaign_id, amount) {
                Some(e) => Err::<Address, ContractError>(e),
                None => Ok(self@[campaign_id as int].token),
            },
    {
        if amount <= 0 {
            return Err(ContractError::InvalidAmount);
        }
        if campaign_id >= self.campaigns.len() as u64 {
            return Err(ContractError::CampaignNotFound);
        }
        let c = &self.campaigns[campaign_id as usize];
        if c.is_ended(now) {
            return Err(ContractError::CampaignEnded);
        }
        if c.raised > i128::MAX - amount {
            return Err(ContractError::Overflow);
        }
        Ok(c.token)
    }

    /// Records `amount` more from `donor` to campaign `campaign_id`, once the
    /// amount has been moved to the engine.
    pub fn record_donation(&mut self, campaign_id: u64, donor: Address, amount: i128)
        requires
            old(self).wf(),
            campaign_id < old(self)@.len(),
            amount > 0,
            old(self)@[campaign_id as int].raised + amount <= i128::MAX,
        ensures
            final(self).wf(),
            final(self).spec_address() == old(self).spec_address(),
            final(self)@.len() == old(self)@.len(),
            old(self)@[campaign_id as int].with_donation(
                &final(self)@[campaign_id as int],
                donor,
                amount as int,
            ),
            forall|i: int|
                0 <= i < old(self)@.len() && i != campaign_id ==> #[trigger] final(self)@[i]
                    == old(self)@[i],
    {
        let n = self.campaigns.len();
        assert(campaign_id < n);
        let idx = campaign_id as usize;
        let ghost before = self@;
        let mut campaign = self.campaigns[idx].clone();
        campaign.add_donation(donor, amount);
        self.campaigns.set(idx, campaign);
        assert(self@ == before.update(idx as int, campaign));
    }

    /// Checks, at time `now`, a refund of `donor`'s donation to campaign
    /// `campaign_id`, without changing anything: on success returns the
    /// amount to refund.
    pub fn check_refund(&self, now: u64, campaign_id: u64, donor: Address) -> (r: Result<
        i128,
        ContractError,
    >)
        requires
            self.wf(),
        ensures
            r == match self.refund_error(now, campaign_id, donor) {
                Some(e) => Err::<i128, ContractError>(e),
                None => Ok(self@[campaign_id as int].donation_of(donor) as i128),
            },
    {
        if campaign_id >= self.campaigns.len() as u64 {
            return Err(ContractError::CampaignNotFound);
        }
        let c = &self.campaigns[campaign_id as usize];
        if !c.is_ended(now) {
            return Err(ContractError::CampaignNotEnded);
        }
        if c.is_goal_reached() {
            return Err(ContractError::GoalReached);
        }
        let amount = c.donation(donor);
        if amount <= 0 {
            return Err(ContractError::NoRefundableDonation);
        }
        Ok(amount)
    }

    /// Sets `donor`'s donation to campaign `campaign_id` to 0, takes it off
    /// the amount raised, and returns it.
    pub fn record_refund(&mut self, campaign_id: u64, donor: Address) -> (r: i128)
        requires
            old(self).wf(),
            campaign_id < old(self)@.len(),
        ensures
            final(self).wf(),
            final(self).spec_address() == old(self).spec_address(),
            final(self)@.len() == old(self)@.len(),
            r == old(self)@[campaign_id as int].donation_of(donor),
            old(self)@[campaign_id as int].with_refund(&final(self)@[campaign_id as int], donor),
            forall|i: int|
                0 <= i < old(self)@.len() && i != campaign_id ==> #[trigger] final(self)@[i]
                    == old(self)@[i],
    {
        let n = self.campaigns.len();
        assert(campaign_id < n);
        let idx = campaign_id as usize;
        let ghost before = self@;
        let mut campaign = self.campaigns[idx].clone();
        let cleared = campaign.clear_donation(donor);
        self.campaigns.set(idx, campaign);
        assert(self@ == before.update(idx as int, campaign));
        cleared
    }

    /// Moves `amount` of the campaign's asset from `donor` to the engine on
    /// `ledger` and records it for `donor`, at time `now`.
    ///
    /// `ledger` is the ledger of the campaign's asset. Refused, with nothing
    /// changed, as `donate_error` says, and then with the ledger's own error
    /// when the transfer is refused.
    pub fn donate(
        &mut self,
        ledger: &mut TokenContract,
        now: u64,
        campaign_id: u64,
        donor: Address,
        amount: i128,
    ) -> (r: Result<(), ContractError>)
        requires
            old(self).wf(),
            old(ledger).wf(),
            campaign_id < old(self)@.len() ==> old(ledger).spec_address()
                == old(self)@[campaign_id as int].token,
        ensures
            final(self).wf(),
            final(ledger).wf(),
            final(self).spec_address() == old(self).spec_address(),
            final(self)@.len() == old(self)@.len(),
            final(ledger).spec_address() == old(ledger).spec_address(),
            final(ledger).spec_metadata() == old(ledger).spec_metadata(),
            r == match old(self).donate_error(now, campaign_id, amount) {
                Some(e) => Err::<(), ContractError>(e),
                None => match old(ledger).transfer_error(donor, amount) {
                    Some(e) => Err::<(), ContractError>(e),
                    None => Ok(()),
                },
            },
            r is Err ==> final(self)@ == old(self)@ && *final(ledger) == *old(ledger),
            r is Ok ==> {
                &&& old(self)@[campaign_id as int].with_donation(
                    &final(self)@[campaign_id as int],
                    donor,
                    amount as int,
                )
                &&& forall|i: int|
                    0 <= i < old(self)@.len() && i != campaign_id ==> #[trigger] final(self)@[i]
                        == old(self)@[i]
                &&& forall|a: Address| #[trigger]
                    final(ledger).balance_of(a) == balance_after_transfer(
                        old(ledger).balances(),
                        donor,
                        old(self).spec_address(),
                        amount as int,
                        a,
                    )
            },
            forall|i: int|
                0 <= i < final(self)@.len() ==> #[trigger] final(self)@[i].raised
                    == final(self)@[i].donations.spec_total(),
    {
        if let Err(e) = self.check_donation(now, campaign_id, amount) {
            return Err(e);
        }
        let moved = ledger.transfer(donor, self.address, amount);
        if moved.is_err() {
            return moved;
        }
        self.record_donation(campaign_id, donor, amount);
        Ok(())
    }

    /// Refunds `donor`'s whole donation to a campaign that ended short of its
    /// goal, at time `now`: moves it from the engine to `donor` on `ledger`,
    /// sets `donor`'s donation to 0, takes it off the amount raised, and
    /// returns it.
    ///
    /// `ledger` is the ledger of the campaign's asset. Refused, with nothing
    /// changed, as `refund_error` says, and then with the ledger's own error
    /// when the transfer is refused.
    pub fn refund(&mut self, ledger: &mut TokenContract, now: u64, campaign_id: u64, donor: Address) -> (r:
        Result<i128, ContractError>)
        requires
            old(self).wf(),
            old(ledger).wf(),
            campaign_id < old(self)@.len() ==> old(ledger).spec_address()
                == old(self)@[campaign_id as int].token,
        ensures
            final(self).wf(),
            final(ledger).wf(),
            final(self).spec_address() == old(self).spec_address(),
            final(self)@.len() == old(self)@.len(),
            final(ledger).spec_address() == old(ledger).spec_address(),
            final(ledger).spec_metadata() == old(ledger).spec_metadata(),
            r == match old(self).refund_error(now, campaign_id, donor) {
                Some(e) => Err::<i128, ContractError>(e),
                None => {
                    let amount = old(self)@[campaign_id as int].donation_of(donor) as i128;
                    match old(ledger).transfer_error(old(self).spec_address(), amount) {
                        Some(e) => Err::<i128, ContractError>(e),
                        None => Ok(amount),
                    }
                },
            },
            r is Err ==> final(self)@ == old(self)@ && *final(ledger) == *old(ledger),
            r matches Ok(amount) ==> {
                &&& now >= old(self)@[campaign_id as int].deadline
                &&& old(self)@[campaign_id as int].raised < old(self)@[campaign_id as int].goal
                &&& old(self)@[campaign_id as int].with_refund(&final(self)@[campaign_id as int], donor)
                &&& forall|i: int|
                    0 <= i < old(self)@.len() && i != campaign_id ==> #[trigger] final(self)@[i]
                        == old(self)@[i]
                &&& forall|a: Address| #[trigger]
                    final(ledger).balance_of(a) == balance_after_transfer(
                        old(ledger).balances(),
                        old(self).spec_address(),
                        donor,
                        amount as int,
                        a,
                    )
                &&& forall|later: u64|
                    later >= now ==> #[trigger] final(self).refund_error(later, campaign_id, donor)
                        == Some(ContractError::NoRefundableDonation)
            },
            forall|i: int|
                0 <= i < final(self)@.len() ==> #[trigger] final(self)@[i].raised
                    == final(self)@[i].donations.spec_total(),
    {
        let amount = match self.check_refund(now, campaign_id, donor) {
            Ok(amount) => amount,
            Err(e) => return Err(e),
        };
        let moved = ledger.transfer(self.address, donor, amount);
        if let Err(e) = moved {
            return Err(e);
        }
        let refunded = self.record_refund(campaign_id, donor);
        Ok(refunded)
    }

    /// The campaign with id `id`; `CampaignNotFound` if there is none.
    pub fn get_campaign(&self, id: u64) -> (r: Result<Campaign, ContractError>)
        ensures
            id < self@.len() <==> r is Ok,
            r is Err ==> r == Err::<Campaign, ContractError>(ContractError::CampaignNotFound),
            r matches Ok(c) ==> c.same_record(&self@[id as int]),
    {
        if id >= self.campaigns.len() as u64 {
            return Err(ContractError::CampaignNotFound);
        }
        Ok(self.campaigns[id as usize].clone())
    }

    /// The id the next campaign will get: the number of campaigns so far.
    pub fn get_next_id(&self) -> (r: u64)
        requires
            self.wf(),
        ensures
            r == self@.len(),
    {
        self.campaigns.len() as u64
    }

    /// The campaign with id `id`, by reference.
    fn campaign(&self, id: u64) -> (r: Result<&Campaign, ContractError>)
        ensures
            id < self@.len() <==> r is Ok,
            r is Err ==> r == Err::<&Campaign, ContractError>(ContractError::CampaignNotFound),
            r matches Ok(c) ==> *c == self@[id as int],
    {
        if id >= self.campaigns.len() as u64 {
            return Err(ContractError::CampaignNotFound);
        }
        Ok(&self.campaigns[id as usize])
    }

    /// The amount raised by campaign `campaign_id`.
    pub fn get_total_raised(&self, campaign_id: u64) -> (r: Result<i128, ContractError>)
        ensures
            r == if campaign_id < self@.len() {
                Ok::<i128, ContractError>(self@[campaign_id as int].raised)
            } else {
                Err(ContractError::CampaignNotFound)
            },
    {
        match self.campaign(campaign_id) {
            Ok(c) => Ok(c.raised),
            Err(e) => Err(e),
        }
    }

    /// The outstanding donation of `donor` to campaign `campaign_id`; 0 if it
    /// never gave or was refunded.
    pub fn get_donation(&self, campaign_id: u64, donor: Address) -> (r: Result<i128, ContractError>)
        requires
            self.wf(),
        ensures
            r == if campaign_id < self@.len() {
                Ok::<i128, ContractError>(self@[campaign_id as int].donation_of(donor) as i128)
            } else {
                Err(ContractError::CampaignNotFound)
            },
    {
        match self.campaign(campaign_id) {
            Ok(c) => Ok(c.donation(donor)),
            Err(e) => Err(e),
        }
    }

    /// The goal of campaign `campaign_id`.
    pub fn get_goal(&self, campaign_id: u64) -> (r: Result<i128, ContractError>)
        ensures
            r == if campaign_id < self@.len() {
                Ok::<i128, ContractError>(self@[campaign_id as int].goal)
            } else {
                Err(ContractError::CampaignNotFound)
            },
    {
        match self.campaign(campaign_id) {
            Ok(c) => Ok(c.goal),
            Err(e) => Err(e),
        }
    }

    /// The deadline of campaign `campaign_id`.
    pub fn get_deadline(&self, campaign_id: u64) -> (r: Result<u64, ContractError>)
        ensures
            r == if campaign_id < self@.len() {
                Ok::<u64, ContractError>(self@[campaign_id as int].deadline)
            } else {
                Err(ContractError::CampaignNotFound)
            },
    {
        match self.campaign(campaign_id) {
            Ok(c) => Ok(c.deadline),
            Err(e) => Err(e),
        }
    }

    /// Whether campaign `campaign_id` has reached its goal.
    pub fn is_goal_reached(&self, campaign_id: u64) -> (r: Result<bool, ContractError>)
        ensures
            r == if campaign_id < self@.len() {
                Ok::<bool, ContractError>(self@[campaign_id as int].goal_reached())
            } else {
                Err(ContractError::CampaignNotFound)
            },
    {
        match self.campaign(campaign_id) {
            Ok(c) => Ok(c.is_goal_reached()),
            Err(e) => Err(e),
        }
    }

    /// Whether campaign `campaign_id` is over at time `now`; the deadline
    /// itself counts as over.
    pub fn is_ended(&self, now: u64, campaign_id: u64) -> (r: Result<bool, ContractError>)
        ensures
            r == if campaign_id < self@.len() {
                Ok::<bool, ContractError>(self@[campaign_id as int].ended_at(now))
            } else {
                Err(ContractError::CampaignNotFound)
            },
    {
        match self.campaign(campaign_id) {
            Ok(c) => Ok(c.is_ended(now)),
            Err(e) => Err(e),
        }
    }

    /// Where campaign `campaign_id` stands at time `now`.
    pub fn status(&self, now: u64, campaign_id: u64) -> (r: Result<CampaignStatus, ContractError>)
        ensures
            r == if campaign_id < self@.len() {
                Ok::<CampaignStatus, ContractError>(self@[campaign_id as int].status_at(now))
            } else {
                Err(ContractError::CampaignNotFound)
            },
    {
        match self.campaign(campaign_id) {
            Ok(c) => Ok(c.status(now)),
            Err(e) => Err(e),
        }
    }

    /// The progress of campaign `campaign_id` towards its goal, in percent:
    /// `raised * 100 / goal` rounded toward zero, with the product clamped to
    /// `i128::MAX`.
    pub fn get_progress_percentage(&self, campaign_id: u64) -> (r: Result<i128, ContractError>)
        requires
            self.wf(),
        ensures
            r == if campaign_id < self@.len() {
                Ok::<i128, ContractError>(
                    spec_progress(
                        self@[campaign_id as int].raised as int,
                        self@[campaign_id as int].goal as int,
                    ) as i128,
                )
            } else {
                Err(ContractError::CampaignNotFound)
            },
    {
        match self.campaign(campaign_id) {
            Ok(c) => Ok(c.progress()),
            Err(e) => Err(e),
        }
    }
}

} // verus!
