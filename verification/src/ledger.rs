//! The funding ledger: campaign lifecycle, contribution accounting, the loan
//! registry, locked/staked balances, and directed messages.
//!
//! Every mutating operation first validates its preconditions and only then
//! touches the stores, so a refused operation leaves the ledger exactly as it
//! was. The hosting runtime resolves the caller's identity and the current
//! time and passes both in explicitly.

use vstd::prelude::*;

use crate::store::{
    assoc_lookup, lemma_assoc_lookup_absent, lemma_assoc_lookup_at, lemma_assoc_lookup_push,
    lemma_assoc_lookup_update,
};
use crate::types::{AccountId, Balance, Campaign, Error, Loan, Message, Timestamp};

verus! {

/// The balance bound to `a`, taking an absent entry as zero.
pub open spec fn balance_or_zero(entries: Seq<(AccountId, Balance)>, a: AccountId) -> Balance {
    match assoc_lookup(entries, a) {
        Some(v) => v,
        None => 0,
    }
}

/// The funding ledger. One value of this type is the whole state: five
/// independent stores plus the metadata fixed at construction.
pub struct Polfund {
    name: String,
    location: String,
    owner: AccountId,
    campaigns: Vec<(AccountId, Campaign)>,
    contributors: Vec<((AccountId, AccountId), Balance)>,
    loans: Vec<Loan>,
    locked_assets: Vec<(AccountId, Balance)>,
    staked_assets: Vec<(AccountId, Balance)>,
    messages: Vec<((AccountId, AccountId), Vec<Message>)>,
}

impl Polfund {
    /// The identity that constructed the ledger.
    pub closed spec fn spec_owner(self) -> AccountId {
        self.owner
    }

    /// The ledger's display name.
    pub closed spec fn spec_name(self) -> Seq<char> {
        self.name@
    }

    /// The ledger's display location.
    pub closed spec fn spec_location(self) -> Seq<char> {
        self.location@
    }

    /// The campaign registered under `creator`, if any.
    pub closed spec fn spec_campaign(self, creator: AccountId) -> Option<Campaign> {
        assoc_lookup(self.campaigns@, creator)
    }

    /// The contribution record for (`creator`'s campaign, `backer`), if any.
    /// A record exists once `backer` has had a contribution accepted, even one
    /// of zero.
    pub closed spec fn spec_contribution(self, creator: AccountId, backer: AccountId) -> Option<
        Balance,
    > {
        assoc_lookup(self.contributors@, (creator, backer))
    }

    /// The contribution record's value, taking an absent record as zero.
    pub open spec fn contribution_or_zero(self, creator: AccountId, backer: AccountId) -> Balance {
        match self.spec_contribution(creator, backer) {
            Some(v) => v,
            None => 0,
        }
    }

    /// All loans, in insertion order.
    pub closed spec fn spec_loans(self) -> Seq<Loan> {
        self.loans@
    }

    /// The locked balance of `a` (zero when `a` never locked anything).
    pub closed spec fn spec_locked(self, a: AccountId) -> Balance {
        balance_or_zero(self.locked_assets@, a)
    }

    /// The staked balance of `a` (zero when `a` never staked anything).
    pub closed spec fn spec_staked(self, a: AccountId) -> Balance {
        balance_or_zero(self.staked_assets@, a)
    }

    /// The messages sent from `sender` to `recipient`, in send order. The
    /// reverse direction is a distinct key.
    pub closed spec fn spec_messages(self, sender: AccountId, recipient: AccountId) -> Seq<
        Message,
    > {
        match assoc_lookup(self.messages@, (sender, recipient)) {
            Some(list) => list@,
            None => Seq::<Message>::empty(),
        }
    }

    /// The two states register the same campaigns.
    pub open spec fn same_campaigns(self, other: Polfund) -> bool {
        forall|c: AccountId| self.spec_campaign(c) == other.spec_campaign(c)
    }

    /// The two states hold the same contribution records.
    pub open spec fn same_contributions(self, other: Polfund) -> bool {
        forall|c: AccountId, b: AccountId| self.spec_contribution(c, b) == other.spec_contribution(
            c,
            b,
        )
    }

    /// The two states hold the same loans.
    pub open spec fn same_loans(self, other: Polfund) -> bool {
        self.spec_loans() == other.spec_loans()
    }

    /// The two states hold the same locked balances.
    pub open spec fn same_locked(self, other: Polfund) -> bool {
        forall|a: AccountId| self.spec_locked(a) == other.spec_locked(a)
    }

    /// The two states hold the same staked balances.
    pub open spec fn same_staked(self, other: Polfund) -> bool {
        forall|a: AccountId| self.spec_staked(a) == other.spec_staked(a)
    }

    /// The two states hold the same messages.
    pub open spec fn same_messages(self, other: Polfund) -> bool {
        forall|s: AccountId, r: AccountId| self.spec_messages(s, r) == other.spec_messages(s, r)
    }

    /// The two states carry the same construction-time metadata.
    pub open spec fn same_meta(self, other: Polfund) -> bool {
        &&& self.spec_owner() == other.spec_owner()
        &&& self.spec_name() == other.spec_name()
        &&& self.spec_location() == other.spec_location()
    }

    /// The result `contribute_to_campaign` owes for this pre-state and input.
    pub open spec fn contribute_outcome(
        self,
        caller: AccountId,
        now: Timestamp,
        campaign_creator: AccountId,
        amount: Balance,
    ) -> Result<(), Error> {
        match self.spec_campaign(campaign_creator) {
            None => Err(Error::NotFound),
            Some(c) => if c.is_closed {
                Err(Error::CampaignClosed)
            } else if now >= c.deadline {
                Err(Error::DeadlinePassed)
            } else if c.current_amount + amount > u128::MAX || self.contribution_or_zero(
                campaign_creator,
                caller,
            ) + amount > u128::MAX {
                Err(Error::ArithmeticOverflow)
            } else {
                Ok(())
            },
        }
    }

    /// The result `close_campaign` owes for this pre-state and input.
    pub open spec fn close_outcome(self, now: Timestamp, campaign_creator: AccountId) -> Result<
        (),
        Error,
    > {
        match self.spec_campaign(campaign_creator) {
            None => Err(Error::NotFound),
            Some(c) => if now < c.deadline {
                Err(Error::TooEarly)
            } else {
                Ok(())
            },
        }
    }

    /// The result `withdraw` owes for this pre-state and input. An identity
    /// with no self-record at all is let through as a no-op.
    pub open spec fn withdraw_outcome(self, caller: AccountId, amount: Balance) -> Result<
        (),
        Error,
    > {
        match self.spec_contribution(caller, caller) {
            None => Ok(()),
            Some(v) => if amount > v {
                Err(Error::InsufficientBalance)
            } else {
                Ok(())
            },
        }
    }
}

/// How `create_campaign` changes the state: the caller's slot holds a fresh
/// open campaign with nothing collected, and nothing else moves.
pub open spec fn campaign_created(
    pre: Polfund,
    post: Polfund,
    caller: AccountId,
    target_amount: Balance,
    deadline: Timestamp,
) -> bool {
    &&& post.spec_campaign(caller) == (Some(
        Campaign {
            creator: caller,
            target_amount,
            current_amount: 0,
            deadline,
            is_closed: false,
        },
    ))
    &&& forall|d: AccountId| d != caller ==> post.spec_campaign(d) == pre.spec_campaign(d)
    &&& pre.same_contributions(post)
    &&& pre.same_loans(post)
    &&& pre.same_locked(post)
    &&& pre.same_staked(post)
    &&& pre.same_messages(post)
    &&& pre.same_meta(post)
}

/// How an accepted contribution changes the state: the campaign's total and
/// the (creator, caller) record each grow by exactly `amount`, without
/// wrapping, and nothing else moves.
pub open spec fn contribute_accepted(
    pre: Polfund,
    post: Polfund,
    caller: AccountId,
    campaign_creator: AccountId,
    amount: Balance,
) -> bool {
    &&& pre.spec_campaign(campaign_creator) is Some
    &&& (pre.spec_campaign(campaign_creator) matches Some(c) ==> c.current_amount + amount
        <= u128::MAX)
    &&& pre.contribution_or_zero(campaign_creator, caller) + amount <= u128::MAX
    &&& post.spec_campaign(campaign_creator) == (match pre.spec_campaign(campaign_creator) {
        Some(c) => Some(
            Campaign {
                creator: c.creator,
                target_amount: c.target_amount,
                current_amount: (c.current_amount + amount) as Balance,
                deadline: c.deadline,
                is_closed: c.is_closed,
            },
        ),
        None => None::<Campaign>,
    })
    &&& post.spec_contribution(campaign_creator, caller) == (Some(
        (pre.contribution_or_zero(campaign_creator, caller) + amount) as Balance,
    ))
    &&& forall|d: AccountId|
        d != campaign_creator ==> post.spec_campaign(d) == pre.spec_campaign(d)
    &&& forall|p: AccountId, q: AccountId|
        !(p == campaign_creator && q == caller) ==> post.spec_contribution(p, q)
            == pre.spec_contribution(p, q)
    &&& pre.same_loans(post)
    &&& pre.same_locked(post)
    &&& pre.same_staked(post)
    &&& pre.same_messages(post)
    &&& pre.same_meta(post)
}

/// How a successful close changes the state: the campaign is marked closed
/// with every other field kept, and nothing else moves.
pub open spec fn close_accepted(pre: Polfund, post: Polfund, campaign_creator: AccountId) -> bool {
    &&& post.spec_campaign(campaign_creator) == (match pre.spec_campaign(campaign_creator) {
        Some(c) => Some(
            Campaign {
                creator: c.creator,
                target_amount: c.target_amount,
                current_amount: c.current_amount,
                deadline: c.deadline,
                is_closed: true,
            },
        ),
        None => None::<Campaign>,
    })
    &&& forall|d: AccountId|
        d != campaign_creator ==> post.spec_campaign(d) == pre.spec_campaign(d)
    &&& pre.same_contributions(post)
    &&& pre.same_loans(post)
    &&& pre.same_locked(post)
    &&& pre.same_staked(post)
    &&& pre.same_messages(post)
    &&& pre.same_meta(post)
}

/// How `send_message` changes the state: exactly the (sender, recipient) list
/// grows, at its end, by the one message sent, and nothing else moves.
pub open spec fn message_sent(
    pre: Polfund,
    post: Polfund,
    sender: AccountId,
    recipient: AccountId,
    content: String,
) -> bool {
    &&& post.spec_messages(sender, recipient) == pre.spec_messages(sender, recipient).push(
        (Message { sender, recipient, content }),
    )
    &&& forall|p: AccountId, q: AccountId|
        !(p == sender && q == recipient) ==> post.spec_messages(p, q) == pre.spec_messages(p, q)
    &&& pre.same_campaigns(post)
    &&& pre.same_contributions(post)
    &&& pre.same_loans(post)
    &&& pre.same_locked(post)
    &&& pre.same_staked(post)
    &&& pre.same_meta(post)
}

/// Scans for the first entry keyed by `key`.
fn find_campaign_index(v: &Vec<(AccountId, Campaign)>, key: AccountId) -> (r: Option<usize>)
    ensures
        match r {
            Some(i) => i < v.len() && v@[i as int].0 == key && (forall|j: int|
                0 <= j < i ==> v@[j].0 != key),
            None => forall|j: int| 0 <= j < v@.len() ==> v@[j].0 != key,
        },
{
    let mut i: usize = 0;
    while i < v.len()
        invariant
            i <= v.len(),
            forall|j: int| 0 <= j < i ==> v@[j].0 != key,
        decreases v.len() - i,
    {
        if v[i].0 == key {
            return Some(i);
        }
        i = i + 1;
    }
    None
}

/// Scans for the first entry keyed by the pair (`k0`, `k1`).
fn find_pair_index(v: &Vec<((AccountId, AccountId), Balance)>, k0: AccountId, k1: AccountId) -> (r:
    Option<usize>)
    ensures
        match r {
            Some(i) => i < v.len() && v@[i as int].0 == (k0, k1) && (forall|j: int|
                0 <= j < i ==> v@[j].0 != (k0, k1)),
            None => forall|j: int| 0 <= j < v@.len() ==> v@[j].0 != (k0, k1),
        },
{
    let mut i: usize = 0;
    while i < v.len()
        invariant
            i <= v.len(),
            forall|j: int| 0 <= j < i ==> v@[j].0 != (k0, k1),
        decreases v.len() - i,
    {
        if v[i].0.0 == k0 && v[i].0.1 == k1 {
            proof {
                assert(v@[i as int].0 =~= (k0, k1));
            }
            return Some(i);
        }
        i = i + 1;
    }
    None
}

/// Scans for the first balance entry keyed by `key`.
fn find_balance_index(v: &Vec<(AccountId, Balance)>, key: AccountId) -> (r: Option<usize>)
    ensures
        match r {
            Some(i) => i < v.len() && v@[i as int].0 == key && (forall|j: int|
                0 <= j < i ==> v@[j].0 != key),
            None => forall|j: int| 0 <= j < v@.len() ==> v@[j].0 != key,
        },
{
    let mut i: usize = 0;
    while i < v.len()
        invariant
            i <= v.len(),
            forall|j: int| 0 <= j < i ==> v@[j].0 != key,
        decreases v.len() - i,
    {
        if v[i].0 == key {
            return Some(i);
        }
        i = i + 1;
    }
    None
}

/// Scans for the first message list keyed by the pair (`k0`, `k1`).
fn find_message_index(
    v: &Vec<((AccountId, AccountId), Vec<Message>)>,
    k0: AccountId,
    k1: AccountId,
) -> (r: Option<usize>)
    ensures
        match r {
            Some(i) => i < v.len() && v@[i as int].0 == (k0, k1) && (forall|j: int|
                0 <= j < i ==> v@[j].0 != (k0, k1)),
            None => forall|j: int| 0 <= j < v@.len() ==> v@[j].0 != (k0, k1),
        },
{
    let mut i: usize = 0;
    while i < v.len()
        invariant
            i <= v.len(),
            forall|j: int| 0 <= j < i ==> v@[j].0 != (k0, k1),
        decreases v.len() - i,
    {
        if v[i].0.0 == k0 && v[i].0.1 == k1 {
            proof {
                assert(v@[i as int].0 =~= (k0, k1));
            }
            return Some(i);
        }
        i = i + 1;
    }
    None
}

/// Reads the balance bound to `a`, taking an absent entry as zero.
fn read_balance(v: &Vec<(AccountId, Balance)>, a: AccountId) -> (r: Balance)
    ensures
        r == balance_or_zero(v@, a),
{
    match find_balance_index(v, a) {
        Some(i) => {
            proof {
                lemma_assoc_lookup_at(v@, a, i as int);
            }
            v[i].1
        },
        None => {
            proof {
                lemma_assoc_lookup_absent(v@, a);
            }
            0
        },
    }
}

/// Binds `a` to `val`, inserting or overwriting, and touching no other key.
fn put_balance(v: &mut Vec<(AccountId, Balance)>, a: AccountId, val: Balance)
    ensures
        assoc_lookup(final(v)@, a) == Some(val),
        forall|b: AccountId| b != a ==> assoc_lookup(final(v)@, b) == assoc_lookup(old(v)@, b),
{
    match find_balance_index(v, a) {
        Some(i) => {
            v[i] = (a, val);
            proof {
                assert(v@ =~= old(v)@.update(i as int, (old(v)@[i as int].0, val)));
                assert forall|b: AccountId| #[trigger]
                    assoc_lookup(v@, b) == (if b == a {
                        Some(val)
                    } else {
                        assoc_lookup(old(v)@, b)
                    }) by {
                    lemma_assoc_lookup_update(old(v)@, i as int, val, b);
                }
            }
        },
        None => {
            proof {
                lemma_assoc_lookup_absent(v@, a);
            }
            v.push((a, val));
            proof {
                assert forall|b: AccountId| #[trigger]
                    assoc_lookup(v@, b) == (if b == a {
                        Some(val)
                    } else {
                        assoc_lookup(old(v)@, b)
                    }) by {
                    lemma_assoc_lookup_push(old(v)@, a, val, b);
                }
            }
        },
    }
}

/// Clones a message list; the copy holds the same messages.
fn clone_message_list(v: &Vec<Message>) -> (r: Vec<Message>)
    ensures
        r@ == v@,
{
    let mut r: Vec<Message> = Vec::new();
    let mut i: usize = 0;
    while i < v.len()
        invariant
            i <= v.len(),
            r@ =~= v@.subrange(0, i as int),
        decreases v.len() - i,
    {
        r.push(v[i].clone());
        proof {
            assert(v@.subrange(0, i + 1 as int) =~= v@.subrange(0, i as int).push(v@[i as int]));
        }
        i = i + 1;
    }
    proof {
        assert(r@ =~= v@);
    }
    r
}

impl Polfund {
    /// Builds an empty ledger. The hosting runtime resolves `owner` as the
    /// constructing caller's identity.
    pub fn new(name: String, location: String, owner: AccountId) -> (r: Polfund)
        ensures
            r.spec_owner() == owner,
            r.spec_name() == name@,
            r.spec_location() == location@,
            forall|c: AccountId| r.spec_campaign(c) is None,
            forall|c: AccountId, b: AccountId| r.spec_contribution(c, b) is None,
            r.spec_loans() == Seq::<Loan>::empty(),
            forall|a: AccountId| r.spec_locked(a) == 0,
            forall|a: AccountId| r.spec_staked(a) == 0,
            forall|s: AccountId, t: AccountId| r.spec_messages(s, t) == Seq::<Message>::empty(),
    {
        let r = Polfund {
            name,
            location,
            owner,
            campaigns: Vec::new(),
            contributors: Vec::new(),
            loans: Vec::new(),
            locked_assets: Vec::new(),
            staked_assets: Vec::new(),
            messages: Vec::new(),
        };
        proof {
            assert(r.loans@ =~= Seq::<Loan>::empty());
        }
        r
    }

    /// Binds `key` to campaign `c`, inserting or overwriting, and touching
    /// nothing else.
    fn put_campaign(&mut self, key: AccountId, c: Campaign)
        ensures
            final(self).spec_campaign(key) == Some(c),
            forall|d: AccountId|
                d != key ==> final(self).spec_campaign(d) == old(self).spec_campaign(d),
            old(self).same_contributions(*final(self)),
            old(self).same_loans(*final(self)),
            old(self).same_locked(*final(self)),
            old(self).same_staked(*final(self)),
            old(self).same_messages(*final(self)),
            old(self).same_meta(*final(self)),
    {
        match find_campaign_index(&self.campaigns, key) {
            Some(i) => {
                self.campaigns[i] = (key, c);
                proof {
                    assert(self.campaigns@ =~= old(self).campaigns@.update(
                        i as int,
                        (old(self).campaigns@[i as int].0, c),
                    ));
                    assert forall|d: AccountId| #[trigger]
                        assoc_lookup(self.campaigns@, d) == (if d == key {
                            Some(c)
                        } else {
                            assoc_lookup(old(self).campaigns@, d)
                        }) by {
                        lemma_assoc_lookup_update(old(self).campaigns@, i as int, c, d);
                    }
                }
            },
            None => {
                proof {
                    lemma_assoc_lookup_absent(self.campaigns@, key);
                }
                self.campaigns.push((key, c));
                proof {
                    assert forall|d: AccountId| #[trigger]
                        assoc_lookup(self.campaigns@, d) == (if d == key {
                            Some(c)
                        } else {
                            assoc_lookup(old(self).campaigns@, d)
                        }) by {
                        lemma_assoc_lookup_push(old(self).campaigns@, key, c, d);
                    }
                }
            },
        }
    }

    /// Binds the (creator, backer) record to `val`, inserting or overwriting,
    /// and touching nothing else.
    fn put_contribution(&mut self, creator: AccountId, backer: AccountId, val: Balance)
        ensures
            final(self).spec_contribution(creator, backer) == Some(val),
            forall|p: AccountId, q: AccountId|
                !(p == creator && q == backer) ==> final(self).spec_contribution(p, q) == old(
                    self,
                ).spec_contribution(p, q),
            old(self).same_campaigns(*final(self)),
            old(self).same_loans(*final(self)),
            old(self).same_locked(*final(self)),
            old(self).same_staked(*final(self)),
            old(self).same_messages(*final(self)),
            old(self).same_meta(*final(self)),
    {
        match find_pair_index(&self.contributors, creator, backer) {
            Some(i) => {
                self.contributors[i] = ((creator, backer), val);
                proof {
                    assert(self.contributors@ =~= old(self).contributors@.update(
                        i as int,
                        (old(self).contributors@[i as int].0, val),
                    ));
                    assert forall|p: AccountId, q: AccountId| #[trigger]
                        assoc_lookup(self.contributors@, (p, q)) == (if p == creator && q == backer {
                            Some(val)
                        } else {
                            assoc_lookup(old(self).contributors@, (p, q))
                        }) by {
                        lemma_assoc_lookup_update(old(self).contributors@, i as int, val, (p, q));
                    }
                }
            },
            None => {
                proof {
                    lemma_assoc_lookup_absent(self.contributors@, (creator, backer));
                }
                self.contributors.push(((creator, backer), val));
                proof {
                    assert forall|p: AccountId, q: AccountId| #[trigger]
                        assoc_lookup(self.contributors@, (p, q)) == (if p == creator && q == backer {
                            Some(val)
                        } else {
                            assoc_lookup(old(self).contributors@, (p, q))
                        }) by {
                        lemma_assoc_lookup_push(
                            old(self).contributors@,
                            (creator, backer),
                            val,
                            (p, q),
                        );
                    }
                }
            },
        }
    }

    /// Binds the (sender, recipient) list to `list`, inserting or
    /// overwriting, and touching nothing else.
    fn put_message_list(&mut self, sender: AccountId, recipient: AccountId, list: Vec<Message>)
        ensures
            final(self).spec_messages(sender, recipient) == list@,
            forall|p: AccountId, q: AccountId|
                !(p == sender && q == recipient) ==> final(self).spec_messages(p, q) == old(
                    self,
                ).spec_messages(p, q),
            old(self).same_campaigns(*final(self)),
            old(self).same_contributions(*final(self)),
            old(self).same_loans(*final(self)),
            old(self).same_locked(*final(self)),
            old(self).same_staked(*final(self)),
            old(self).same_meta(*final(self)),
    {
        let ghost list_snapshot = list@;
        match find_message_index(&self.messages, sender, recipient) {
            Some(i) => {
                self.messages[i] = ((sender, recipient), list);
                proof {
                    assert(self.messages@ =~= old(self).messages@.update(
                        i as int,
                        (old(self).messages@[i as int].0, self.messages@[i as int].1),
                    ));
                    assert forall|p: AccountId, q: AccountId| #[trigger]
                        assoc_lookup(self.messages@, (p, q)) == (if p == sender && q == recipient {
                            Some(self.messages@[i as int].1)
                        } else {
                            assoc_lookup(old(self).messages@, (p, q))
                        }) by {
                        lemma_assoc_lookup_update(
                            old(self).messages@,
                            i as int,
                            self.messages@[i as int].1,
                            (p, q),
                        );
                    }
                    assert(self.messages@[i as int].1@ == list_snapshot);
                }
            },
            None => {
                proof {
                    lemma_assoc_lookup_absent(self.messages@, (sender, recipient));
                }
                self.messages.push(((sender, recipient), list));
                proof {
                    assert forall|p: AccountId, q: AccountId| #[trigger]
                        assoc_lookup(self.messages@, (p, q)) == (if p == sender && q == recipient {
                            Some(self.messages@[self.messages@.len() - 1].1)
                        } else {
                            assoc_lookup(old(self).messages@, (p, q))
                        }) by {
                        lemma_assoc_lookup_push(
                            old(self).messages@,
                            (sender, recipient),
                            self.messages@[self.messages@.len() - 1].1,
                            (p, q),
                        );
                    }
                    assert(self.messages@[self.messages@.len() - 1].1@ == list_snapshot);
                }
            },
        }
    }

    /// Registers a campaign under the caller's identity: open, with nothing
    /// collected yet. Any prior campaign under the same identity is replaced
    /// outright; its contribution records stay behind.
    pub fn create_campaign(
        &mut self,
        caller: AccountId,
        target_amount: Balance,
        deadline: Timestamp,
    )
        ensures
            campaign_created(*old(self), *final(self), caller, target_amount, deadline),
    {
        let campaign = Campaign {
            creator: caller,
            target_amount,
            current_amount: 0,
            deadline,
            is_closed: false,
        };
        self.put_campaign(caller, campaign);
    }

    /// Adds `amount` to `campaign_creator`'s campaign and to the caller's
    /// record for it, both in one atomic step, provided the campaign exists,
    /// is open, its deadline has not been reached, and neither total wraps.
    /// A refusal leaves the ledger untouched.
    pub fn contribute_to_campaign(
        &mut self,
        caller: AccountId,
        now: Timestamp,
        campaign_creator: AccountId,
        amount: Balance,
    ) -> (r: Result<(), Error>)
        ensures
            r == old(self).contribute_outcome(caller, now, campaign_creator, amount),
            r is Ok ==> contribute_accepted(
                *old(self),
                *final(self),
                caller,
                campaign_creator,
                amount,
            ),
            r is Err ==> *final(self) == *old(self),
    {
        let c = match self.get_campaign(campaign_creator) {
            None => {
                return Err(Error::NotFound);
            },
            Some(c) => c,
        };
        if c.is_closed {
            return Err(Error::CampaignClosed);
        }
        if now >= c.deadline {
            return Err(Error::DeadlinePassed);
        }
        if amount > u128::MAX - c.current_amount {
            return Err(Error::ArithmeticOverflow);
        }
        let cur: Balance = self.get_backer_record(campaign_creator, caller);
        if amount > u128::MAX - cur {
            return Err(Error::ArithmeticOverflow);
        }
        let updated = Campaign {
            creator: c.creator,
            target_amount: c.target_amount,
            current_amount: c.current_amount + amount,
            deadline: c.deadline,
            is_closed: c.is_closed,
        };
        self.put_campaign(campaign_creator, updated);
        self.put_contribution(campaign_creator, caller, cur + amount);
        Ok(())
    }

    /// Marks `campaign_creator`'s campaign closed, provided it exists and its
    /// deadline has been reached. Re-closing a closed campaign succeeds and
    /// changes nothing. A refusal leaves the ledger untouched.
    pub fn close_campaign(&mut self, now: Timestamp, campaign_creator: AccountId) -> (r: Result<
        (),
        Error,
    >)
        ensures
            r == old(self).close_outcome(now, campaign_creator),
            r is Ok ==> close_accepted(*old(self), *final(self), campaign_creator),
            r is Err ==> *final(self) == *old(self),
    {
        let c = match self.get_campaign(campaign_creator) {
            None => {
                return Err(Error::NotFound);
            },
            Some(c) => c,
        };
        if now < c.deadline {
            return Err(Error::TooEarly);
        }
        let closed = Campaign {
            creator: c.creator,
            target_amount: c.target_amount,
            current_amount: c.current_amount,
            deadline: c.deadline,
            is_closed: true,
        };
        self.put_campaign(campaign_creator, closed);
        Ok(())
    }

    /// Appends one message to the (caller, recipient) list. The reverse
    /// direction is a distinct list and is not touched.
    pub fn send_message(&mut self, caller: AccountId, recipient: AccountId, content: String)
        ensures
            message_sent(*old(self), *final(self), caller, recipient, content),
    {
        let mut list = self.get_messages(caller, recipient);
        list.push(Message { sender: caller, recipient, content });
        self.put_message_list(caller, recipient, list);
    }

    /// The messages sent from `sender` to `recipient`, in send order; empty
    /// when none were sent. The reverse direction must be queried separately.
    pub fn get_messages(&self, sender: AccountId, recipient: AccountId) -> (r: Vec<Message>)
        ensures
            r@ == self.spec_messages(sender, recipient),
    {
        match find_message_index(&self.messages, sender, recipient) {
            Some(i) => {
                proof {
                    lemma_assoc_lookup_at(self.messages@, (sender, recipient), i as int);
                }
                clone_message_list(&self.messages[i].1)
            },
            None => {
                proof {
                    lemma_assoc_lookup_absent(self.messages@, (sender, recipient));
                }
                Vec::new()
            },
        }
    }

    /// Appends one loan record. Only the borrower side is tracked; the caller
    /// is not recorded.
    pub fn lend(
        &mut self,
        borrower: AccountId,
        amount: Balance,
        interest_rate: u32,
        duration: u32,
        collateral: Balance,
    )
        ensures
            final(self).spec_loans() == old(self).spec_loans().push(
                (Loan { borrower, amount, interest_rate, duration, collateral }),
            ),
            old(self).same_campaigns(*final(self)),
            old(self).same_contributions(*final(self)),
            old(self).same_locked(*final(self)),
            old(self).same_staked(*final(self)),
            old(self).same_messages(*final(self)),
            old(self).same_meta(*final(self)),
    {
        self.loans.push(Loan { borrower, amount, interest_rate, duration, collateral });
    }

    /// Adds `amount` to the caller's locked balance, unless that would wrap;
    /// a refusal leaves the ledger untouched.
    pub fn lock_assets(&mut self, caller: AccountId, amount: Balance) -> (r: Result<(), Error>)
        ensures
            r == (if old(self).spec_locked(caller) + amount > u128::MAX {
                Err::<(), Error>(Error::ArithmeticOverflow)
            } else {
                Ok::<(), Error>(())
            }),
            r is Ok ==> final(self).spec_locked(caller) == old(self).spec_locked(caller) + amount
                && (forall|a: AccountId|
                a != caller ==> final(self).spec_locked(a) == old(self).spec_locked(a))
                && old(self).same_campaigns(*final(self))
                && old(self).same_contributions(*final(self))
                && old(self).same_loans(*final(self))
                && old(self).same_staked(*final(self))
                && old(self).same_messages(*final(self))
                && old(self).same_meta(*final(self)),
            r is Err ==> *final(self) == *old(self),
    {
        let cur = read_balance(&self.locked_assets, caller);
        if amount > u128::MAX - cur {
            return Err(Error::ArithmeticOverflow);
        }
        put_balance(&mut self.locked_assets, caller, cur + amount);
        Ok(())
    }

    /// Adds `amount` to the caller's staked balance, unless that would wrap;
    /// a refusal leaves the ledger untouched.
    pub fn stake_assets(&mut self, caller: AccountId, amount: Balance) -> (r: Result<(), Error>)
        ensures
            r == (if old(self).spec_staked(caller) + amount > u128::MAX {
                Err::<(), Error>(Error::ArithmeticOverflow)
            } else {
                Ok::<(), Error>(())
            }),
            r is Ok ==> final(self).spec_staked(caller) == old(self).spec_staked(caller) + amount
                && (forall|a: AccountId|
                a != caller ==> final(self).spec_staked(a) == old(self).spec_staked(a))
                && old(self).same_campaigns(*final(self))
                && old(self).same_contributions(*final(self))
                && old(self).same_loans(*final(self))
                && old(self).same_locked(*final(self))
                && old(self).same_messages(*final(self))
                && old(self).same_meta(*final(self)),
            r is Err ==> *final(self) == *old(self),
    {
        let cur = read_balance(&self.staked_assets, caller);
        if amount > u128::MAX - cur {
            return Err(Error::ArithmeticOverflow);
        }
        put_balance(&mut self.staked_assets, caller, cur + amount);
        Ok(())
    }

    /// Subtracts `amount` from the caller's self-record — the record keyed by
    /// (caller, caller), not any contribution to another identity's campaign.
    /// With no self-record at all the call is a no-op; with one of value `v`
    /// it succeeds exactly when `amount <= v`. A refusal leaves the ledger
    /// untouched.
    pub fn withdraw(&mut self, caller: AccountId, amount: Balance) -> (r: Result<(), Error>)
        ensures
            r == old(self).withdraw_outcome(caller, amount),
            r is Err ==> *final(self) == *old(self),
            old(self).spec_contribution(caller, caller) is None ==> *final(self) == *old(self),
            r is Ok ==> final(self).spec_contribution(caller, caller) == (match old(
                self,
            ).spec_contribution(caller, caller) {
                Some(v) => Some((v - amount) as Balance),
                None => None::<Balance>,
            })
                && (forall|p: AccountId, q: AccountId|
                !(p == caller && q == caller) ==> final(self).spec_contribution(p, q) == old(
                    self,
                ).spec_contribution(p, q))
                && old(self).same_campaigns(*final(self))
                && old(self).same_loans(*final(self))
                && old(self).same_locked(*final(self))
                && old(self).same_staked(*final(self))
                && old(self).same_messages(*final(self))
                && old(self).same_meta(*final(self)),
    {
        match find_pair_index(&self.contributors, caller, caller) {
            None => {
                proof {
                    lemma_assoc_lookup_absent(self.contributors@, (caller, caller));
                }
                Ok(())
            },
            Some(i) => {
                proof {
                    lemma_assoc_lookup_at(self.contributors@, (caller, caller), i as int);
                }
                let v: Balance = self.contributors[i].1;
                if amount > v {
                    Err(Error::InsufficientBalance)
                } else {
                    self.put_contribution(caller, caller, v - amount);
                    Ok(())
                }
            },
        }
    }

    /// The caller-independent read of the (backer, backer) self-record, zero
    /// when absent. This reads the same diagonal key as `withdraw`, not the
    /// backer's contributions to other identities' campaigns.
    pub fn get_backer_balance(&self, backer: AccountId) -> (r: Balance)
        ensures
            r == self.contribution_or_zero(backer, backer),
    {
        self.get_backer_record(backer, backer)
    }

    /// The contribution record for (`creator`, `backer`), zero when absent.
    pub fn get_backer_record(&self, creator: AccountId, backer: AccountId) -> (r: Balance)
        ensures
            r == self.contribution_or_zero(creator, backer),
    {
        match find_pair_index(&self.contributors, creator, backer) {
            Some(i) => {
                proof {
                    lemma_assoc_lookup_at(self.contributors@, (creator, backer), i as int);
                }
                self.contributors[i].1
            },
            None => {
                proof {
                    lemma_assoc_lookup_absent(self.contributors@, (creator, backer));
                }
                0
            },
        }
    }

    /// The loan stored at `index`, in insertion order; `None` when `index` is
    /// past the end. Never faults on an out-of-range index.
    pub fn get_loan(&self, index: u32) -> (r: Option<Loan>)
        ensures
            r == (if (index as int) < self.spec_loans().len() {
                Some(self.spec_loans()[index as int])
            } else {
                None::<Loan>
            }),
    {
        if (index as usize) < self.loans.len() {
            Some(self.loans[index as usize])
        } else {
            None
        }
    }

    /// The campaign registered under `creator`, if any.
    pub fn get_campaign(&self, creator: AccountId) -> (r: Option<Campaign>)
        ensures
            r == self.spec_campaign(creator),
    {
        match find_campaign_index(&self.campaigns, creator) {
            Some(i) => {
                proof {
                    lemma_assoc_lookup_at(self.campaigns@, creator, i as int);
                }
                Some(self.campaigns[i].1)
            },
            None => {
                proof {
                    lemma_assoc_lookup_absent(self.campaigns@, creator);
                }
                None
            },
        }
    }

    /// The locked balance of `account`, zero when it never locked anything.
    pub fn get_locked_assets(&self, account: AccountId) -> (r: Balance)
        ensures
            r == self.spec_locked(account),
    {
        read_balance(&self.locked_assets, account)
    }

    /// The staked balance of `account`, zero when it never staked anything.
    pub fn get_staked_assets(&self, account: AccountId) -> (r: Balance)
        ensures
            r == self.spec_staked(account),
    {
        read_balance(&self.staked_assets, account)
    }
}

} // verus!
