use vstd::prelude::*;

use crate::address::Address;
use crate::tally::Tally;

verus! {

/// A funding goal with a deadline, an owner, the asset it collects and what
/// each donor has contributed so far.
pub struct Campaign {
    /// Who created the campaign.
    pub owner: Address,
    /// The amount to reach; strictly positive.
    pub goal: i128,
    /// The time (seconds since the epoch) from which the campaign is over.
    pub deadline: u64,
    /// The ledger of the asset the campaign collects.
    pub token: Address,
    /// The sum of all outstanding donations.
    pub raised: i128,
    /// What each donor has outstanding; 0 once refunded.
    pub donations: Tally,
}

/// Where a campaign stands at a given time.
#[derive(Clone, Copy, Debug, PartialEq, Eq, Structural)]
pub enum CampaignStatus {
    /// The deadline has not been reached: donations are accepted.
    Open,
    /// The deadline has passed with the goal reached: nothing more happens.
    Succeeded,
    /// The deadline has passed short of the goal: donors may get refunds.
    Failed,
}

/// `raised * 100 / goal`, rounded toward zero, with `raised * 100` clamped to
/// `i128::MAX` when it does not fit; 0 when `goal` is 0.
pub open spec fn spec_progress(raised: int, goal: int) -> int {
    if goal == 0 {
        0
    } else if raised * 100 > i128::MAX {
        (i128::MAX as int) / goal
    } else {
        raised * 100 / goal
    }
}

/// How far `raised` has come towards `goal`, in percent.
///
/// The product `raised * 100` saturates at `i128::MAX` instead of
/// overflowing, a zero goal gives 0, and the result exceeds 100 once the goal
/// is passed.
pub fn progress_percentage(raised: i128, goal: i128) -> (r: i128)
    requires
        raised >= 0,
        goal >= 0,
    ensures
        r == spec_progress(raised as int, goal as int),
        r >= 0,
{
    if goal == 0 {
        return 0;
    }
    let scaled: i128 = if raised > i128::MAX / 100 {
        i128::MAX
    } else {
        raised * 100
    };
    scaled / goal
}

/// With nothing raised, or no goal, the progress is 0. While `raised * 100`
/// fits in an `i128` the progress is exactly `raised * 100 / goal` rounded
/// toward zero, and it is 100 or more once `raised` reaches `goal`: it is not
/// capped at 100.
pub proof fn lemma_progress(raised: int, goal: int)
    requires
        0 <= raised <= i128::MAX,
        0 <= goal <= i128::MAX,
    ensures
        raised == 0 || goal == 0 ==> spec_progress(raised, goal) == 0,
        goal > 0 && raised * 100 <= i128::MAX ==> spec_progress(raised, goal) == raised * 100 / goal,
        goal > 0 && raised >= goal && raised * 100 <= i128::MAX ==> spec_progress(raised, goal) >= 100,
        0 <= spec_progress(raised, goal) <= i128::MAX,
{
    if goal > 0 {
        if raised * 100 > i128::MAX {
            assert(0 <= (i128::MAX as int) / goal <= i128::MAX) by (nonlinear_arith)
                requires
                    goal > 0,
            ;
        } else {
            assert(0 <= raised * 100 / goal <= raised * 100) by (nonlinear_arith)
                requires
                    goal > 0,
                    raised >= 0,
            ;
            if raised >= goal {
                assert(raised * 100 / goal >= 100) by (nonlinear_arith)
                    requires
                        goal > 0,
                        raised >= goal,
                ;
            }
        }
    }
}

impl Campaign {
    /// Every donation is non-negative, at most one per donor, and `raised`
    /// is their sum; the goal is strictly positive.
    pub open spec fn wf(&self) -> bool {
        &&& self.donations.wf()
        &&& self.raised == self.donations.spec_total()
        &&& self.goal > 0
    }

    /// The outstanding donation of `donor`; 0 if it never gave or was
    /// refunded.
    pub open spec fn donation_of(&self, donor: Address) -> int {
        self.donations.spec_amount(donor)
    }

    /// Whether the campaign is over at time `now`.
    pub open spec fn ended_at(&self, now: u64) -> bool {
        now >= self.deadline
    }

    /// Whether the campaign has reached its goal.
    pub open spec fn goal_reached(&self) -> bool {
        self.goal > 0 && self.raised >= self.goal
    }

    /// Where the campaign stands at time `now`.
    pub open spec fn status_at(&self, now: u64) -> CampaignStatus {
        if !self.ended_at(now) {
            CampaignStatus::Open
        } else if self.raised >= self.goal {
            CampaignStatus::Succeeded
        } else {
            CampaignStatus::Failed
        }
    }

    /// The two records hold the same values.
    pub open spec fn same_record(&self, other: &Campaign) -> bool {
        &&& self.owner == other.owner
        &&& self.goal == other.goal
        &&& self.deadline == other.deadline
        &&& self.token == other.token
        &&& self.raised == other.raised
        &&& self.donations@ == other.donations@
    }

    /// `other` is this record after `amount` more from `donor`.
    pub open spec fn with_donation(&self, other: &Campaign, donor: Address, amount: int) -> bool {
        &&& other.owner == self.owner
        &&& other.goal == self.goal
        &&& other.deadline == self.deadline
        &&& other.token == self.token
        &&& other.raised == self.raised + amount
        &&& other.donation_of(donor) == self.donation_of(donor) + amount
        &&& forall|d: Address| d != donor ==> #[trigger] other.donation_of(d) == self.donation_of(d)
    }

    /// `other` is this record after `donor`'s donation was refunded.
    pub open spec fn with_refund(&self, other: &Campaign, donor: Address) -> bool {
        &&& other.owner == self.owner
        &&& other.goal == self.goal
        &&& other.deadline == self.deadline
        &&& other.token == self.token
        &&& other.raised == self.raised - self.donation_of(donor)
        &&& other.donation_of(donor) == 0
        &&& forall|d: Address| d != donor ==> #[trigger] other.donation_of(d) == self.donation_of(d)
    }

    /// A new campaign with nothing raised yet.
    pub fn new(owner: Address, goal: i128, deadline: u64, token: Address) -> (r: Campaign)
        requires
            goal > 0,
        ensures
            r.wf(),
            r.owner == owner,
            r.goal == goal,
            r.deadline == deadline,
            r.token == token,
            r.raised == 0,
            r.donations@.len() == 0,
            forall|d: Address| r.donation_of(d) == 0,
    {
        Campaign { owner, goal, deadline, token, raised: 0, donations: Tally::new() }
    }

    /// The outstanding donation of `donor`.
    pub fn donation(&self, donor: Address) -> (r: i128)
        requires
            self.wf(),
        ensures
            r == self.donation_of(donor),
            0 <= r <= self.raised,
    {
        proof {
            crate::tally::lemma_amount_bounded(self.donations@, donor);
        }
        self.donations.get(donor)
    }

    /// Whether the campaign is over at time `now`: the deadline itself
    /// counts as over.
    pub fn is_ended(&self, now: u64) -> (r: bool)
        ensures
            r == self.ended_at(now),
    {
        now >= self.deadline
    }

    /// Whether the amount raised has reached the goal.
    pub fn is_goal_reached(&self) -> (r: bool)
        ensures
            r == self.goal_reached(),
    {
        self.goal > 0 && self.raised >= self.goal
    }

    /// Where the campaign stands at time `now`.
    pub fn status(&self, now: u64) -> (r: CampaignStatus)
        ensures
            r == self.status_at(now),
    {
        if now < self.deadline {
            CampaignStatus::Open
        } else if self.raised >= self.goal {
            CampaignStatus::Succeeded
        } else {
            CampaignStatus::Failed
        }
    }

    /// The progress towards the goal, in percent (see `progress_percentage`).
    pub fn progress(&self) -> (r: i128)
        requires
            self.wf(),
        ensures
            r == spec_progress(self.raised as int, self.goal as int),
    {
        proof {
            crate::tally::lemma_total_non_negative(self.donations@);
        }
        progress_percentage(self.raised, self.goal)
    }

    /// Records `amount` more from `donor`.
    pub(crate) fn add_donation(&mut self, donor: Address, amount: i128)
        requires
            old(self).wf(),
            amount > 0,
            old(self).raised + amount <= i128::MAX,
        ensures
            final(self).wf(),
            old(self).with_donation(final(self), donor, amount as int),
    {
        let current = self.donation(donor);
        self.donations.set(donor, current + amount);
        self.raised = self.raised + amount;
    }

    /// Sets `donor`'s donation to 0 and takes it off the amount raised.
    pub(crate) fn clear_donation(&mut self, donor: Address) -> (r: i128)
        requires
            old(self).wf(),
        ensures
            final(self).wf(),
            r == old(self).donation_of(donor),
            old(self).with_refund(final(self), donor),
    {
        let current = self.donation(donor);
        self.donations.set(donor, 0);
        self.raised = self.raised - current;
        current
    }
}

impl Clone for Campaign {
    fn clone(&self) -> (r: Campaign)
        ensures
            r.same_record(self),
    {
        Campaign {
            owner: self.owner,
            goal: self.goal,
            deadline: self.deadline,
            token: self.token,
            raised: self.raised,
            donations: self.donations.duplicate(),
        }
    }
}

} // verus!
