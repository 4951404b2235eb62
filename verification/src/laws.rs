//! Ledger-wide laws, proved from the operations' contracts alone.
//!
//! Each law relates the transition predicates that the operations ensure, so
//! it holds of every call sequence the ledger can actually make.

use vstd::prelude::*;

use crate::ledger::{
    campaign_created, close_accepted, contribute_accepted, message_sent, Polfund,
};
use crate::types::{AccountId, Balance, Message, Timestamp};

verus! {

/// A newly created campaign starts open and with nothing collected: after
/// `create_campaign`, for any target and deadline, the stored record has
/// `current_amount` zero, `is_closed` false, and the given fields.
pub proof fn lemma_new_campaign_starts_open(
    pre: Polfund,
    post: Polfund,
    caller: AccountId,
    target_amount: Balance,
    deadline: Timestamp,
)
    requires
        campaign_created(pre, post, caller, target_amount, deadline),
    ensures
        post.spec_campaign(caller) matches Some(c) && c.creator == caller && c.target_amount
            == target_amount && c.current_amount == 0 && c.deadline == deadline && !c.is_closed,
{
}

/// Accepted contributions accumulate: after two contributions from the same
/// backer to the same campaign are accepted in turn, the campaign's total and
/// the backer's record have each grown by exactly the sum of the two amounts.
pub proof fn lemma_contributions_accumulate(
    s0: Polfund,
    s1: Polfund,
    s2: Polfund,
    caller: AccountId,
    creator: AccountId,
    a1: Balance,
    a2: Balance,
)
    requires
        contribute_accepted(s0, s1, caller, creator, a1),
        contribute_accepted(s1, s2, caller, creator, a2),
    ensures
        s2.contribution_or_zero(creator, caller) == s0.contribution_or_zero(creator, caller) + a1
            + a2,
        s0.spec_campaign(creator) matches Some(c0) ==> (s2.spec_campaign(creator) matches Some(c2)
            && c2.current_amount == c0.current_amount + a1 + a2),
{
}

/// The sum of a sequence of amounts.
pub open spec fn amount_sum(amounts: Seq<Balance>) -> int
    decreases amounts.len(),
{
    if amounts.len() == 0 {
        0
    } else {
        amounts[0] + amount_sum(amounts.drop_first())
    }
}

/// Accepted contributions accumulate over runs of any length: after a run of
/// accepted contributions from one backer to one campaign, the backer's
/// record and the campaign's total have each grown by exactly the sum of the
/// accepted amounts.
pub proof fn lemma_contribution_run(
    states: Seq<Polfund>,
    caller: AccountId,
    creator: AccountId,
    amounts: Seq<Balance>,
)
    requires
        states.len() == amounts.len() + 1,
        forall|k: int|
            0 <= k < amounts.len() ==> contribute_accepted(
                states[k],
                states[k + 1],
                caller,
                creator,
                #[trigger] amounts[k],
            ),
    ensures
        states.last().contribution_or_zero(creator, caller) == states[0].contribution_or_zero(
            creator,
            caller,
        ) + amount_sum(amounts),
        states[0].spec_campaign(creator) matches Some(c0) ==> (states.last().spec_campaign(creator)
            matches Some(cn) && cn.current_amount == c0.current_amount + amount_sum(amounts)),
    decreases amounts.len(),
{
    if amounts.len() > 0 {
        assert(contribute_accepted(states[0], states[1], caller, creator, amounts[0]));
        let rest_states = states.drop_first();
        let rest_amounts = amounts.drop_first();
        assert forall|k: int| 0 <= k < rest_amounts.len() implies contribute_accepted(
            rest_states[k],
            rest_states[k + 1],
            caller,
            creator,
            #[trigger] rest_amounts[k],
        ) by {
            assert(contribute_accepted(
                states[k + 1],
                states[k + 2],
                caller,
                creator,
                amounts[k + 1],
            ));
        }
        lemma_contribution_run(rest_states, caller, creator, rest_amounts);
        assert(rest_states.last() == states.last());
    }
}

/// Closing is idempotent: once a campaign is closed at or after its deadline,
/// closing it again at any later time also succeeds and leaves the record —
/// `is_closed` included — exactly as it was.
pub proof fn lemma_close_idempotent(
    s0: Polfund,
    s1: Polfund,
    now1: Timestamp,
    now2: Timestamp,
    creator: AccountId,
)
    requires
        s0.close_outcome(now1, creator) is Ok,
        close_accepted(s0, s1, creator),
        now1 <= now2,
    ensures
        s1.close_outcome(now2, creator) is Ok,
        s1.spec_campaign(creator) matches Some(c) && c.is_closed,
        forall|s2: Polfund| #[trigger]
            close_accepted(s1, s2, creator) ==> s2.spec_campaign(creator) == s1.spec_campaign(
                creator,
            ),
{
}

/// Messaging is directional: a message sent from `sender` to `recipient`
/// extends only that direction's list, at its end; the reverse direction's
/// list stays exactly as it was.
pub proof fn lemma_message_asymmetry(
    s0: Polfund,
    s1: Polfund,
    sender: AccountId,
    recipient: AccountId,
    content: String,
)
    requires
        message_sent(s0, s1, sender, recipient, content),
        sender != recipient,
    ensures
        s1.spec_messages(sender, recipient) == s0.spec_messages(sender, recipient).push(
            (Message { sender, recipient, content }),
        ),
        s1.spec_messages(recipient, sender) == s0.spec_messages(recipient, sender),
{
}

} // verus!
