//! Clients do not affect each other: what a feed does to a client depends
//! only on that client's own transactions, in their order.

use vstd::prelude::*;

use crate::laws::lemma_record_comes_from_feed;
use crate::model::{run, step, LedgerState};
use crate::transaction::Transaction;

verus! {

/// The transactions of client `c` in `feed`, in their order.
pub open spec fn of_client(feed: Seq<Transaction>, c: u16) -> Seq<Transaction> {
    feed.filter(|t: Transaction| t.client_id == c)
}

/// Whether every id under which `feed` has a deposit or a withdrawal is
/// used by one client only. A feed in which those ids are unique is of this
/// kind.
pub open spec fn ids_keep_to_one_client(feed: Seq<Transaction>) -> bool {
    forall|i: int, j: int|
        #![trigger feed[i], feed[j]]
        0 <= i < feed.len() && 0 <= j < feed.len() && feed[i].transaction_type.moves_funds()
            && feed[j].transaction_type.moves_funds() && feed[i].txn_id == feed[j].txn_id
            ==> feed[i].client_id == feed[j].client_id
}

/// The share of client `c` in the ledger `s`: the account of `c` and the
/// transactions of `c` on record.
pub open spec fn share(s: LedgerState, c: u16) -> LedgerState {
    LedgerState {
        clients: s.clients.restrict(set![c]),
        transactions: s.transactions.restrict(
            Set::new(|id: u32| s.transactions.contains_key(id) && s.transactions[id].client_id == c),
        ),
    }
}

/// A transaction of one client leaves the share of every other client as it
/// is, as long as it does not take an id under which that other client has
/// a transaction on record.
proof fn lemma_step_of_another_client(s: LedgerState, t: Transaction, c: u16)
    requires
        t.client_id != c,
        t.transaction_type.moves_funds() && s.transactions.contains_key(t.txn_id)
            ==> s.transactions[t.txn_id].client_id != c,
    ensures
        share(step(s, t), c) == share(s, c),
{
    assert(share(step(s, t), c).clients =~= share(s, c).clients);
    assert(share(step(s, t), c).transactions =~= share(s, c).transactions);
}

/// To a transaction of client `c`, only the share of `c` in the ledger
/// matters.
proof fn lemma_step_of_the_client(s: LedgerState, t: Transaction, c: u16)
    requires
        t.client_id == c,
    ensures
        share(step(s, t), c) == step(share(s, c), t),
{
    assert(share(step(s, t), c).clients =~= step(share(s, c), t).clients);
    assert(share(step(s, t), c).transactions =~= step(share(s, c), t).transactions);
}

/// Where no id is used by two clients in a feed, none is in the feed
/// without its last transaction.
proof fn lemma_ids_of_beginning(feed: Seq<Transaction>)
    requires
        ids_keep_to_one_client(feed),
        feed.len() > 0,
    ensures
        ids_keep_to_one_client(feed.drop_last()),
{
    let rest = feed.drop_last();
    assert forall|i: int, j: int|
        #![trigger rest[i], rest[j]]
        0 <= i < rest.len() && 0 <= j < rest.len() && rest[i].transaction_type.moves_funds()
            && rest[j].transaction_type.moves_funds() && rest[i].txn_id
            == rest[j].txn_id implies rest[i].client_id == rest[j].client_id by {
        assert(rest[i] == feed[i] && rest[j] == feed[j]);
    }
}

/// Client isolation: the share of a client in the ledger that a feed builds
/// is the ledger that the client's own transactions would have built alone.
pub proof fn lemma_client_isolation(feed: Seq<Transaction>, c: u16)
    requires
        ids_keep_to_one_client(feed),
    ensures
        share(run(LedgerState::empty(), feed), c) == run(LedgerState::empty(), of_client(feed, c)),
    decreases feed.len(),
{
    reveal(Seq::filter);
    let start = LedgerState::empty();
    if feed.len() == 0 {
        assert(share(start, c).clients =~= start.clients);
        assert(share(start, c).transactions =~= start.transactions);
    } else {
        let rest = feed.drop_last();
        let t = feed.last();
        let before = run(start, rest);
        lemma_ids_of_beginning(feed);
        lemma_client_isolation(rest, c);
        if t.client_id == c {
            assert(of_client(feed, c).drop_last() =~= of_client(rest, c));
            lemma_step_of_the_client(before, t, c);
        } else {
            if t.transaction_type.moves_funds() && before.transactions.contains_key(t.txn_id) {
                lemma_record_comes_from_feed(rest, t.txn_id);
                let i = choose|i: int|
                    0 <= i < rest.len() && #[trigger] rest[i] == before.transactions[t.txn_id]
                        && rest[i].txn_id == t.txn_id && rest[i].transaction_type.moves_funds();
                assert(feed[i] == rest[i] && feed[feed.len() - 1] == t);
            }
            lemma_step_of_another_client(before, t, c);
        }
    }
}

/// A ledger is made of the shares of its clients: two ledgers in which
/// every client has the same share are the same ledger.
proof fn lemma_equal_shares(a: LedgerState, b: LedgerState)
    requires
        forall|c: u16| share(a, c) == share(b, c),
    ensures
        a == b,
{
    assert forall|c: u16| #[trigger]
        a.clients.dom().contains(c) == b.clients.dom().contains(c) && (a.clients.dom().contains(c)
            ==> a.clients[c] == b.clients[c]) by {
        assert(share(b, c).clients.dom().contains(c) == b.clients.dom().contains(c));
        if a.clients.dom().contains(c) {
            assert(share(b, c).clients[c] == b.clients[c]);
        }
    }
    assert(a.clients =~= b.clients);
    assert forall|id: u32| #[trigger]
        a.transactions.dom().contains(id) == b.transactions.dom().contains(id) && (
        a.transactions.dom().contains(id) ==> a.transactions[id] == b.transactions[id]) by {
        if a.transactions.dom().contains(id) {
            let c = a.transactions[id].client_id;
            assert(share(a, c).transactions[id] == a.transactions[id]);
            assert(share(b, c).transactions.dom().contains(id));
        }
        if b.transactions.dom().contains(id) {
            let c = b.transactions[id].client_id;
            assert(share(a, c).transactions.dom().contains(id));
        }
    }
    assert(a.transactions =~= b.transactions);
}

/// Among feeds in which every client's transactions stand in the same
/// order, `ids_keep_to_one_client` holds of all or of none.
proof fn lemma_ids_carry_over(a: Seq<Transaction>, b: Seq<Transaction>)
    requires
        ids_keep_to_one_client(a),
        forall|c: u16| of_client(a, c) == of_client(b, c),
    ensures
        ids_keep_to_one_client(b),
{
    assert forall|i: int, j: int|
        #![trigger b[i], b[j]]
        0 <= i < b.len() && 0 <= j < b.len() && b[i].transaction_type.moves_funds()
            && b[j].transaction_type.moves_funds() && b[i].txn_id
            == b[j].txn_id implies b[i].client_id == b[j].client_id by {
        lemma_found_in_other_feed(a, b, i);
        lemma_found_in_other_feed(a, b, j);
        let k = choose|k: int| 0 <= k < a.len() && a[k] == b[i];
        let l = choose|l: int| 0 <= l < a.len() && a[l] == b[j];
        assert(a[k].client_id == a[l].client_id);
    }
}

/// Feeds in which every client's transactions stand in the same order are
/// made of the same transactions.
proof fn lemma_found_in_other_feed(a: Seq<Transaction>, b: Seq<Transaction>, i: int)
    requires
        forall|c: u16| of_client(a, c) == of_client(b, c),
        0 <= i < b.len(),
    ensures
        exists|k: int| 0 <= k < a.len() && a[k] == b[i],
{
    broadcast use vstd::seq_lib::group_filter_ensures;

    let c = b[i].client_id;
    let own = |t: Transaction| t.client_id == c;
    assert(of_client(b, c).contains(b[i]));
    assert(of_client(a, c) == of_client(b, c));
    a.lemma_filter_contains_rev(own, b[i]);
}

/// Order independence: two feeds in which the transactions of every client
/// stand in the same order build the same ledger, however the transactions
/// of different clients are interleaved. It is asked that no id of a
/// deposit or a withdrawal is used by two clients.
///
/// The order of the transactions of one client does matter: a withdrawal
/// that comes before the deposit that would have covered it is turned down.
pub proof fn lemma_order_independence(a: Seq<Transaction>, b: Seq<Transaction>)
    requires
        ids_keep_to_one_client(a),
        forall|c: u16| of_client(a, c) == of_client(b, c),
    ensures
        run(LedgerState::empty(), a) == run(LedgerState::empty(), b),
{
    lemma_ids_carry_over(a, b);
    assert forall|c: u16|
        share(run(LedgerState::empty(), a), c) == share(run(LedgerState::empty(), b), c) by {
        lemma_client_isolation(a, c);
        lemma_client_isolation(b, c);
    }
    lemma_equal_shares(run(LedgerState::empty(), a), run(LedgerState::empty(), b));
}

} // verus!
