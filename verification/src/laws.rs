//! What holds of the ledger under every feed.

use vstd::prelude::*;

use crate::model::{run, step, verdict, LedgerState, Rejection};
use crate::transaction::{Transaction, TransactionType};

verus! {

/// Handling a transaction keeps a well-formed ledger well formed.
pub proof fn lemma_step_keeps_wf(s: LedgerState, t: Transaction)
    requires
        s.wf(),
    ensures
        step(s, t).wf(),
{
}

/// Every ledger that a feed builds from a well-formed one is well formed.
pub proof fn lemma_run_keeps_wf(s: LedgerState, feed: Seq<Transaction>)
    requires
        s.wf(),
    ensures
        run(s, feed).wf(),
    decreases feed.len(),
{
    if feed.len() > 0 {
        lemma_run_keeps_wf(s, feed.drop_last());
        lemma_step_keeps_wf(run(s, feed.drop_last()), feed.last());
    }
}

/// Handling a feed in two parts comes to the same as handling it whole.
pub proof fn lemma_run_in_two_parts(s: LedgerState, first: Seq<Transaction>, then: Seq<Transaction>)
    ensures
        run(s, first + then) == run(run(s, first), then),
    decreases then.len(),
{
    if then.len() == 0 {
        assert(first + then =~= first);
    } else {
        lemma_run_in_two_parts(s, first, then.drop_last());
        assert((first + then).drop_last() =~= first + then.drop_last());
    }
}

/// Nothing is ever deleted: a client that has an account keeps one, and a
/// transaction on record stays on record, unchanged unless a later deposit
/// or withdrawal comes under the same id. A dispute, a resolution or a
/// chargeback changes nothing on record.
pub proof fn lemma_nothing_is_deleted(s: LedgerState, t: Transaction)
    ensures
        s.clients.dom().subset_of(step(s, t).clients.dom()),
        s.transactions.dom().subset_of(step(s, t).transactions.dom()),
        forall|id: u32|
            s.transactions.contains_key(id) && id != t.txn_id ==> #[trigger] step(
                s,
                t,
            ).transactions[id] == s.transactions[id],
        t.transaction_type.refers() ==> step(s, t).transactions == s.transactions,
{
}

/// Whatever is on record after a feed is a deposit or a withdrawal of that
/// feed, under its own id.
pub proof fn lemma_record_comes_from_feed(feed: Seq<Transaction>, id: u32)
    requires
        run(LedgerState::empty(), feed).transactions.contains_key(id),
    ensures
        exists|i: int|
            0 <= i < feed.len() && #[trigger] feed[i] == run(
                LedgerState::empty(),
                feed,
            ).transactions[id] && feed[i].txn_id == id && feed[i].transaction_type.moves_funds(),
    decreases feed.len(),
{
    if feed.len() > 0 {
        let rest = feed.drop_last();
        let before = run(LedgerState::empty(), rest);
        if before.transactions.contains_key(id) && step(before, feed.last()).transactions[id]
            == before.transactions[id] {
            lemma_record_comes_from_feed(rest, id);
            let i = choose|i: int|
                0 <= i < rest.len() && #[trigger] rest[i] == before.transactions[id]
                    && rest[i].txn_id == id && rest[i].transaction_type.moves_funds();
            assert(feed[i] == rest[i]);
        } else {
            assert(feed[feed.len() - 1] == feed.last());
        }
    }
}

/// Whatever is in dispute after a feed is a deposit or a withdrawal that
/// the same client has made earlier in that feed.
pub proof fn lemma_disputed_are_own(feed: Seq<Transaction>, c: u16, id: u32)
    requires
        run(LedgerState::empty(), feed).client(c).disputed.contains(id),
    ensures
        exists|i: int|
            0 <= i < feed.len() && (#[trigger] feed[i]).txn_id == id && feed[i].client_id == c
                && feed[i].transaction_type.moves_funds(),
    decreases feed.len(),
{
    if feed.len() > 0 {
        let rest = feed.drop_last();
        let before = run(LedgerState::empty(), rest);
        if before.client(c).disputed.contains(id) {
            lemma_disputed_are_own(rest, c, id);
            let i = choose|i: int|
                0 <= i < rest.len() && (#[trigger] rest[i]).txn_id == id && rest[i].client_id == c
                    && rest[i].transaction_type.moves_funds();
            assert(feed[i] == rest[i]);
        } else {
            lemma_record_comes_from_feed(rest, id);
            let i = choose|i: int|
                0 <= i < rest.len() && #[trigger] rest[i] == before.transactions[id]
                    && rest[i].txn_id == id && rest[i].transaction_type.moves_funds();
            assert(feed[i] == rest[i]);
        }
    }
}

/// By how much handling `t` in the ledger `s` changes the sum of both
/// balances of client `c`: an applied deposit adds its amount, an applied
/// withdrawal and an applied chargeback take theirs away, and nothing else
/// changes the sum.
pub open spec fn net_effect(s: LedgerState, t: Transaction, c: u16) -> int {
    if t.client_id == c && verdict(s, t) is Ok {
        match t.transaction_type {
            TransactionType::Deposit => t.amount->0 as int,
            TransactionType::Withdrawal => -(t.amount->0 as int),
            TransactionType::ChargeBack => -(s.transactions[t.txn_id].amount->0 as int),
            _ => 0,
        }
    } else {
        0
    }
}

/// Balance conservation, for one transaction: the sum of both balances of
/// every client changes by the net effect of the transaction, and by nothing
/// else.
pub proof fn lemma_step_conserves_balance(s: LedgerState, t: Transaction, c: u16)
    ensures
        step(s, t).client(c).total() == s.client(c).total() + net_effect(s, t, c),
{
}

/// The sum of the amounts of the deposits of client `c` that are applied
/// when `feed` is handled from the ledger `s`.
pub open spec fn deposited(s: LedgerState, feed: Seq<Transaction>, c: u16) -> int
    decreases feed.len(),
{
    if feed.len() == 0 {
        0
    } else {
        let t = feed.last();
        deposited(s, feed.drop_last(), c) + if t.client_id == c && t.transaction_type is Deposit
            && verdict(run(s, feed.drop_last()), t) is Ok {
            t.amount->0 as int
        } else {
            0
        }
    }
}

/// The sum of the amounts of the withdrawals of client `c` that are applied
/// when `feed` is handled from the ledger `s`.
pub open spec fn withdrawn(s: LedgerState, feed: Seq<Transaction>, c: u16) -> int
    decreases feed.len(),
{
    if feed.len() == 0 {
        0
    } else {
        let t = feed.last();
        withdrawn(s, feed.drop_last(), c) + if t.client_id == c && t.transaction_type is Withdrawal
            && verdict(run(s, feed.drop_last()), t) is Ok {
            t.amount->0 as int
        } else {
            0
        }
    }
}

/// The sum of the amounts that the applied chargebacks of client `c` take
/// out of the account when `feed` is handled from the ledger `s`.
pub open spec fn charged_back(s: LedgerState, feed: Seq<Transaction>, c: u16) -> int
    decreases feed.len(),
{
    if feed.len() == 0 {
        0
    } else {
        let t = feed.last();
        let before = run(s, feed.drop_last());
        charged_back(s, feed.drop_last(), c) + if t.client_id == c && t.transaction_type
            is ChargeBack && verdict(before, t) is Ok {
            before.transactions[t.txn_id].amount->0 as int
        } else {
            0
        }
    }
}

/// Balance conservation: after any feed, the sum of both balances of a
/// client is what it was before, plus the deposits that were applied, minus
/// the withdrawals that were applied, minus what chargebacks took away.
/// Disputes and resolutions only move money between the two balances.
pub proof fn lemma_balance_conservation(s: LedgerState, feed: Seq<Transaction>, c: u16)
    ensures
        run(s, feed).client(c).total() == s.client(c).total() + deposited(s, feed, c) - withdrawn(
            s,
            feed,
            c,
        ) - charged_back(s, feed, c),
    decreases feed.len(),
{
    if feed.len() > 0 {
        lemma_balance_conservation(s, feed.drop_last(), c);
        lemma_step_conserves_balance(run(s, feed.drop_last()), feed.last(), c);
    }
}

/// Lock finality, for one transaction: a transaction of a client whose
/// account is frozen is turned down for that reason and leaves the whole
/// ledger as it is.
pub proof fn lemma_locked_account_rejects(s: LedgerState, t: Transaction)
    requires
        s.client(t.client_id).locked,
    ensures
        verdict(s, t) == Err::<(), Rejection>(Rejection::AccountLocked),
        step(s, t) == s,
{
    assert(step(s, t).clients =~= s.clients);
}

/// Lock finality: once the account of a client is frozen, no feed changes
/// anything of it, be it the balances, the lock or what is in dispute.
pub proof fn lemma_lock_is_final(s: LedgerState, feed: Seq<Transaction>, c: u16)
    requires
        s.client(c).locked,
    ensures
        run(s, feed).client(c) == s.client(c),
    decreases feed.len(),
{
    if feed.len() > 0 {
        lemma_lock_is_final(s, feed.drop_last(), c);
    }
}

/// Idempotent rejection: a transaction that is turned down and handed in
/// again is turned down for the same reason, and the second attempt leaves
/// the ledger exactly as the first one left it.
pub proof fn lemma_rejection_is_idempotent(s: LedgerState, t: Transaction)
    requires
        verdict(s, t) is Err,
    ensures
        verdict(step(s, t), t) == verdict(s, t),
        step(step(s, t), t) == step(s, t),
{
    let once = step(s, t);
    assert(step(once, t).clients =~= once.clients);
    assert(step(once, t).transactions =~= once.transactions);
}

/// A transaction that is turned down changes no account: the only trace it
/// may leave is a fresh account for a client not heard of before, and, for
/// a withdrawal, its entry on record.
pub proof fn lemma_rejection_changes_no_account(s: LedgerState, t: Transaction, c: u16)
    requires
        verdict(s, t) is Err,
    ensures
        step(s, t).client(c) == s.client(c),
        step(s, t).clients.dom() == s.clients.dom().insert(t.client_id),
        !(t.transaction_type is Withdrawal) ==> step(s, t).transactions == s.transactions,
{
}

} // verus!
