use vstd::prelude::*;

use crate::address::Address;

verus! {

/// The sum of all amounts recorded in `s`.
pub open spec fn total(s: Seq<(Address, i128)>) -> int
    decreases s.len(),
{
    if s.len() == 0 {
        0
    } else {
        total(s.drop_last()) + s.last().1
    }
}

/// The amount recorded for `a` in `s`; 0 when `a` has no entry.
pub open spec fn amount_of(s: Seq<(Address, i128)>, a: Address) -> int
    decreases s.len(),
{
    if s.len() == 0 {
        0
    } else if s.last().0 == a {
        s.last().1 as int
    } else {
        amount_of(s.drop_last(), a)
    }
}

/// No holder has two entries.
pub open spec fn keys_unique(s: Seq<(Address, i128)>) -> bool {
    forall|i: int, j: int| 0 <= i < j < s.len() ==> s[i].0 != s[j].0
}

/// Every recorded amount is at least 0.
pub open spec fn all_non_negative(s: Seq<(Address, i128)>) -> bool {
    forall|i: int| 0 <= i < s.len() ==> s[i].1 >= 0
}

proof fn lemma_amount_absent(s: Seq<(Address, i128)>, a: Address)
    requires
        forall|i: int| 0 <= i < s.len() ==> s[i].0 != a,
    ensures
        amount_of(s, a) == 0,
    decreases s.len(),
{
    if s.len() > 0 {
        assert(s.last().0 != a);
        lemma_amount_absent(s.drop_last(), a);
    }
}

proof fn lemma_amount_at(s: Seq<(Address, i128)>, i: int)
    requires
        keys_unique(s),
        0 <= i < s.len(),
    ensures
        amount_of(s, s[i].0) == s[i].1,
    decreases s.len(),
{
    if i < s.len() - 1 {
        assert(s.last().0 != s[i].0);
        assert(s.drop_last()[i] == s[i]);
        lemma_amount_at(s.drop_last(), i);
    }
}

proof fn lemma_update_amount(s: Seq<(Address, i128)>, i: int, v: i128, b: Address)
    requires
        keys_unique(s),
        0 <= i < s.len(),
    ensures
        amount_of(s.update(i, (s[i].0, v)), b) == if b == s[i].0 {
            v as int
        } else {
            amount_of(s, b)
        },
    decreases s.len(),
{
    let k = s[i].0;
    let t = s.update(i, (k, v));
    if i == s.len() - 1 {
        assert(t.drop_last() =~= s.drop_last());
    } else {
        assert(t.drop_last() =~= s.drop_last().update(i, (k, v)));
        assert(s.drop_last()[i] == s[i]);
        assert(s.last().0 != k);
        lemma_update_amount(s.drop_last(), i, v, b);
    }
}

proof fn lemma_update_total(s: Seq<(Address, i128)>, i: int, v: i128)
    requires
        0 <= i < s.len(),
    ensures
        total(s.update(i, (s[i].0, v))) == total(s) - s[i].1 + v,
    decreases s.len(),
{
    let t = s.update(i, (s[i].0, v));
    if i == s.len() - 1 {
        assert(t.drop_last() =~= s.drop_last());
    } else {
        assert(t.drop_last() =~= s.drop_last().update(i, (s[i].0, v)));
        assert(s.drop_last()[i] == s[i]);
        lemma_update_total(s.drop_last(), i, v);
    }
}

/// The total of a non-negative tally is at least 0.
pub proof fn lemma_total_non_negative(s: Seq<(Address, i128)>)
    requires
        all_non_negative(s),
    ensures
        0 <= total(s),
    decreases s.len(),
{
    if s.len() > 0 {
        assert(s.last().1 >= 0);
        lemma_total_non_negative(s.drop_last());
    }
}

/// An amount of a non-negative tally lies between 0 and its total.
pub proof fn lemma_amount_bounded(s: Seq<(Address, i128)>, a: Address)
    requires
        all_non_negative(s),
    ensures
        0 <= amount_of(s, a) <= total(s),
        0 <= total(s),
    decreases s.len(),
{
    if s.len() > 0 {
        assert(s.last().1 >= 0);
        lemma_amount_bounded(s.drop_last(), a);
    }
}

/// The amounts of two distinct holders of a non-negative tally add up to at
/// most its total.
pub proof fn lemma_two_amounts_bounded(s: Seq<(Address, i128)>, a: Address, b: Address)
    requires
        all_non_negative(s),
        a != b,
    ensures
        amount_of(s, a) + amount_of(s, b) <= total(s),
    decreases s.len(),
{
    if s.len() > 0 {
        assert(s.last().1 >= 0);
        lemma_amount_bounded(s.drop_last(), a);
        lemma_amount_bounded(s.drop_last(), b);
        lemma_two_amounts_bounded(s.drop_last(), a, b);
    }
}

proof fn lemma_total_step(s: Seq<(Address, i128)>, i: int)
    requires
        0 <= i < s.len(),
    ensures
        total(s.subrange(0, i + 1)) == total(s.subrange(0, i)) + s[i].1,
{
    assert(s.subrange(0, i + 1).drop_last() =~= s.subrange(0, i));
}

proof fn lemma_prefix_total(s: Seq<(Address, i128)>, i: int)
    requires
        all_non_negative(s),
        0 <= i <= s.len(),
    ensures
        total(s.subrange(0, i)) <= total(s),
    decreases s.len(),
{
    if i == s.len() {
        assert(s.subrange(0, i) =~= s);
    } else {
        assert(s.last().1 >= 0);
        assert(s.drop_last().subrange(0, i) =~= s.subrange(0, i));
        lemma_prefix_total(s.drop_last(), i);
    }
}

/// Amounts of `i128` recorded per holder, at most one entry per holder.
///
/// A holder without an entry counts as holding 0.
pub struct Tally {
    entries: Vec<(Address, i128)>,
}

impl View for Tally {
    type V = Seq<(Address, i128)>;

    closed spec fn view(&self) -> Seq<(Address, i128)> {
        self.entries@
    }
}

impl Tally {
    /// Entries are unique per holder, never negative, and their sum fits in
    /// an `i128`.
    pub open spec fn wf(&self) -> bool {
        &&& keys_unique(self@)
        &&& all_non_negative(self@)
        &&& total(self@) <= i128::MAX
    }

    /// The amount recorded for `a`.
    pub open spec fn spec_amount(&self, a: Address) -> int {
        amount_of(self@, a)
    }

    /// The sum of all recorded amounts.
    pub open spec fn spec_total(&self) -> int {
        total(self@)
    }

    /// A tally in which every holder has 0.
    pub fn new() -> (r: Tally)
        ensures
            r.wf(),
            r@.len() == 0,
            r.spec_total() == 0,
            forall|a: Address| r.spec_amount(a) == 0,
    {
        Tally { entries: Vec::new() }
    }

    /// The position of `a`'s entry, if it has one.
    fn find(&self, a: Address) -> (r: Option<usize>)
        ensures
            match r {
                Some(i) => i < self@.len() && self@[i as int].0 == a,
                None => forall|j: int| 0 <= j < self@.len() ==> self@[j].0 != a,
            },
    {
        let mut i: usize = 0;
        while i < self.entries.len()
            invariant
                i <= self.entries@.len(),
                forall|j: int| 0 <= j < i ==> self.entries@[j].0 != a,
            decreases self.entries@.len() - i,
        {
            if self.entries[i].0 == a {
                return Some(i);
            }
            i = i + 1;
        }
        None
    }

    /// The amount recorded for `a`, 0 when it has no entry.
    pub fn get(&self, a: Address) -> (r: i128)
        requires
            self.wf(),
        ensures
            r == self.spec_amount(a),
            r >= 0,
    {
        match self.find(a) {
            Some(i) => {
                proof {
                    lemma_amount_at(self@, i as int);
                }
                self.entries[i].1
            },
            None => {
                proof {
                    lemma_amount_absent(self@, a);
                }
                0
            },
        }
    }

    /// Records `v` as `a`'s amount, replacing any earlier one.
    pub fn set(&mut self, a: Address, v: i128)
        requires
            old(self).wf(),
            v >= 0,
            old(self).spec_total() - old(self).spec_amount(a) + v <= i128::MAX,
        ensures
            final(self).wf(),
            final(self).spec_amount(a) == v,
            forall|b: Address| b != a ==> final(self).spec_amount(b) == old(self).spec_amount(b),
            final(self).spec_total() == old(self).spec_total() - old(self).spec_amount(a) + v,
    {
        let ghost s = self@;
        match self.find(a) {
            Some(i) => {
                proof {
                    lemma_amount_at(s, i as int);
                    lemma_update_total(s, i as int, v);
                    assert forall|b: Address| #[trigger]
                        amount_of(s.update(i as int, (a, v)), b) == if b == a {
                            v as int
                        } else {
                            amount_of(s, b)
                        } by {
                        lemma_update_amount(s, i as int, v, b);
                    }
                }
                self.entries.set(i, (a, v));
                assert(self@ == s.update(i as int, (a, v)));
            },
            None => {
                proof {
                    lemma_amount_absent(s, a);
                }
                self.entries.push((a, v));
                assert(self@.drop_last() =~= s);
            },
        }
    }

    /// The entries, one per holder that has one.
    pub fn entries(&self) -> (r: Vec<(Address, i128)>)
        ensures
            r@ == self@,
    {
        let mut out: Vec<(Address, i128)> = Vec::new();
        let mut i: usize = 0;
        while i < self.entries.len()
            invariant
                i <= self.entries@.len(),
                out@ == self.entries@.subrange(0, i as int),
            decreases self.entries@.len() - i,
        {
            let e = self.entries[i];
            out.push(e);
            i = i + 1;
            assert(out@ =~= self.entries@.subrange(0, i as int));
        }
        assert(out@ =~= self.entries@);
        out
    }

    /// A copy with the same entries.
    pub fn duplicate(&self) -> (r: Tally)
        ensures
            r@ == self@,
    {
        Tally { entries: self.entries() }
    }

    /// The sum of all recorded amounts.
    pub fn total(&self) -> (r: i128)
        requires
            self.wf(),
        ensures
            r == self.spec_total(),
    {
        let mut sum: i128 = 0;
        let mut i: usize = 0;
        while i < self.entries.len()
            invariant
                self.wf(),
                i <= self.entries@.len(),
                sum == total(self@.subrange(0, i as int)),
            decreases self.entries@.len() - i,
        {
            proof {
                lemma_total_step(self@, i as int);
                lemma_prefix_total(self@, i as int + 1);
            }
            sum = sum + self.entries[i].1;
            i = i + 1;
        }
        assert(self@.subrange(0, i as int) =~= self@);
        sum
    }

    /// Whether the entries are well formed: one per holder, none negative,
    /// with a sum that fits in an `i128`.
    pub fn check(&self) -> (r: bool)
        ensures
            r == self.wf(),
    {
        let ghost s = self@;
        let mut sum: i128 = 0;
        let mut i: usize = 0;
        while i < self.entries.len()
            invariant
                s == self@,
                i <= s.len(),
                keys_unique(s.subrange(0, i as int)),
                all_non_negative(s.subrange(0, i as int)),
                sum == total(s.subrange(0, i as int)),
                0 <= sum,
            decreases s.len() - i,
        {
            let e = self.entries[i];
            if e.1 < 0 {
                return false;
            }
            let mut j: usize = 0;
            while j < i
                invariant
                    s == self@,
                    j <= i < s.len(),
                    e == s[i as int],
                    forall|k: int| 0 <= k < j ==> s[k].0 != e.0,
                decreases i - j,
            {
                if self.entries[j].0 == e.0 {
                    return false;
                }
                j = j + 1;
            }
            proof {
                lemma_total_step(s, i as int);
            }
            if sum > i128::MAX - e.1 {
                proof {
                    if all_non_negative(s) {
                        lemma_prefix_total(s, i as int + 1);
                    }
                }
                return false;
            }
            sum = sum + e.1;
            i = i + 1;
            assert(keys_unique(s.subrange(0, i as int)));
        }
        assert(s.subrange(0, i as int) =~= s);
        true
    }

    /// A tally with the given entries, if they are well formed (see
    /// `check`).
    pub fn from_entries(entries: Vec<(Address, i128)>) -> (r: Option<Tally>)
        ensures
            r is Some <==> keys_unique(entries@) && all_non_negative(entries@) && total(entries@)
                <= i128::MAX,
            r matches Some(t) ==> t.wf() && t@ == entries@,
    {
        let t = Tally { entries };
        if t.check() {
            Some(t)
        } else {
            None
        }
    }
}

impl Clone for Tally {
    fn clone(&self) -> (r: Tally)
        ensures
            r@ == self@,
    {
        self.duplicate()
    }
}

} // verus!
