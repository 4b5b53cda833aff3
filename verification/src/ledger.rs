//! The ledger: the accounts of all clients and the deposits and withdrawals
//! on record.

use std::collections::{HashMap, HashSet};
use vstd::prelude::*;

use crate::model::{ClientState, LedgerState};
use crate::transaction::Transaction;

verus! {

/// The account of one client. Balances are in ten-thousandths of a unit.
#[derive(Debug, PartialEq, Eq)]
pub struct Client {
    /// What the client can withdraw.
    pub available: i64,
    /// What is on hold because of open disputes.
    pub held: i64,
    /// Whether a chargeback has frozen the account.
    pub locked: bool,
    /// The ids of the transactions in dispute.
    pub disputed: HashSet<u32>,
}

impl View for Client {
    type V = ClientState;

    open spec fn view(&self) -> ClientState {
        ClientState {
            available: self.available as int,
            held: self.held as int,
            locked: self.locked,
            disputed: self.disputed@,
        }
    }
}

impl Default for Client {
    fn default() -> (client: Client)
        ensures
            client@ == ClientState::fresh(),
    {
        Client { available: 0, held: 0, locked: false, disputed: HashSet::new() }
    }
}

impl Client {
    /// The sum of both balances.
    pub fn total(&self) -> (total: i128)
        ensures
            total == self@.total(),
    {
        self.available as i128 + self.held as i128
    }
}

/// All that the engine keeps: the deposits and withdrawals on record, by
/// their id, and the account of every client heard of, by the client's id.
#[derive(Debug, PartialEq, Eq)]
pub struct Database {
    pub transactions: HashMap<u32, Transaction>,
    pub clients: HashMap<u16, Client>,
}

impl View for Database {
    type V = LedgerState;

    open spec fn view(&self) -> LedgerState {
        LedgerState {
            transactions: self.transactions@,
            clients: self.clients@.map_values(|c: Client| c@),
        }
    }
}

impl Default for Database {
    fn default() -> (db: Database)
        ensures
            db@ == LedgerState::empty(),
            db.wf(),
    {
        let db = Database { transactions: HashMap::new(), clients: HashMap::new() };
        assert(db@.clients =~= Map::empty());
        db
    }
}

impl Database {
    /// What holds of every ledger that the engine has built from an empty
    /// one: see [`LedgerState::wf`].
    pub open spec fn wf(&self) -> bool {
        self@.wf()
    }

    /// The account of `id`. A client that has none yet is given a fresh one.
    pub fn get_or_create_client(&mut self, id: u16) -> (client: &mut Client)
        ensures
            client@ == old(self)@.client(id),
            old(self).clients@.contains_key(id) ==> *client == old(self).clients@[id],
            final(self).transactions == old(self).transactions,
            final(self).clients@ == old(self).clients@.insert(id, *final(client)),
            final(self)@.clients == old(self)@.clients.insert(id, final(client)@),
    {
        broadcast use vstd::std_specs::hash::group_hash_axioms;

        let client = self.clients.entry(id).or_insert(Client::default());
        client
    }

    /// Puts `txn` on record under its id, in the place of whatever was on
    /// record under that id before.
    pub fn record_transaction(&mut self, txn: Transaction)
        ensures
            final(self).transactions@ == old(self).transactions@.insert(txn.txn_id, txn),
            final(self).clients == old(self).clients,
    {
        broadcast use vstd::std_specs::hash::group_hash_axioms;

        self.transactions.insert(txn.txn_id, txn);
    }

    /// The deposit or withdrawal on record under `txn_id`, if there is one.
    pub fn lookup_transaction(&self, txn_id: u32) -> (found: Option<&Transaction>)
        ensures
            match found {
                Some(txn) => self@.lookup(txn_id) == Some(*txn),
                None => self@.lookup(txn_id) is None,
            },
    {
        broadcast use vstd::std_specs::hash::group_hash_axioms;

        self.transactions.get(&txn_id)
    }
}

} // verus!
