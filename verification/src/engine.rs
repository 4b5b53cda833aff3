//! The engine: a whole feed, given as CSV, against the ledger.

use csv::StringRecord;
use vstd::prelude::*;

use crate::error::PaymentsEngineError;
use crate::ledger::Database;
use crate::model::{diagnostics, run, Diagnostic};
use crate::prefix::{leading, lemma_leading};
use crate::processor::handle_transaction;
use crate::record::{decoded, record_fields};
use crate::transaction::Transaction;

verus! {

/// What `csv::Reader::from_reader(input).into_records()` yields for the
/// bytes `input`, item by item: the fields of a record, or nothing where
/// the item is an error.
pub uninterp spec fn csv_rows(input: Seq<u8>) -> Seq<Option<Seq<Seq<char>>>>;

/// What one item that a CSV reader yields holds: the fields of the record,
/// or nothing where the item is an error.
pub open spec fn row_of(item: Result<StringRecord, csv::Error>) -> Option<Seq<Seq<char>>> {
    match item {
        Ok(record) => Some(record_fields(record)),
        Err(_) => None,
    }
}

/// Reads `input` with `csv::Reader::from_reader` and gathers all that
/// `into_records` yields, records and errors alike, in their order. The
/// reader is the default one: it takes the first row for a header and does
/// not yield it, and it reports a row that has not as many fields as the
/// first row, or that is not UTF-8.
///
/// Taken on trust: what the reader yields depends on the bytes of `input`
/// and on nothing else. Nothing is claimed of what it yields for given
/// bytes.
#[verifier::external_body]
fn read_records(input: &[u8]) -> (items: Vec<Result<StringRecord, csv::Error>>)
    ensures
        items@.map_values(|item: Result<StringRecord, csv::Error>| row_of(item)) == csv_rows(
            input@,
        ),
{
    csv::Reader::from_reader(input).into_records().collect()
}

/// The transaction that a row stands for, where it stands for one.
pub open spec fn row_transaction(row: Option<Seq<Seq<char>>>) -> Option<Transaction> {
    match row {
        Some(fields) => match decoded(fields) {
            Ok(txn) => Some(txn),
            Err(_) => None,
        },
        None => None,
    }
}

/// How many rows, counted from the first, stand for a transaction before
/// one does not.
pub open spec fn readable_rows(rows: Seq<Option<Seq<Seq<char>>>>) -> nat {
    leading(rows, |row: Option<Seq<Seq<char>>>| row_transaction(row) is Some)
}

/// The transactions that the first `n` of `rows` stand for.
pub open spec fn feed_of(rows: Seq<Option<Seq<Seq<char>>>>, n: nat) -> Seq<Transaction> {
    Seq::new(n, |i: int| row_transaction(rows[i])->0)
}

/// Whether `error` is what is wrong with `row`.
pub open spec fn fails_with(row: Option<Seq<Seq<char>>>, error: PaymentsEngineError) -> bool {
    match row {
        Some(fields) => decoded(fields) == Err::<Transaction, PaymentsEngineError>(error),
        None => error is Csv,
    }
}

/// Handles what a CSV reader has yielded, item by item, up to the first
/// item that is an error or stands for no transaction. That item's error
/// is returned, and nothing after it is looked at.
///
/// Every transaction before it has been handled, in order, and each one
/// that was turned down has left a diagnostic.
pub fn process_records(
    items: Vec<Result<StringRecord, csv::Error>>,
    db: &mut Database,
    log: &mut Vec<Diagnostic>,
) -> (result: Result<(), PaymentsEngineError>)
    ensures
        ({
            let rows = items@.map_values(|item: Result<StringRecord, csv::Error>| row_of(item));
            let feed = feed_of(rows, readable_rows(rows));
            &&& final(db)@ == run(old(db)@, feed)
            &&& old(db).wf() ==> final(db).wf()
            &&& final(log)@ == old(log)@ + diagnostics(old(db)@, feed)
            &&& match result {
                Ok(_) => readable_rows(rows) == rows.len(),
                Err(error) => readable_rows(rows) < rows.len() && fails_with(
                    rows[readable_rows(rows) as int],
                    error,
                ),
            }
        }),
{
    let ghost rows = items@.map_values(|item: Result<StringRecord, csv::Error>| row_of(item));
    let ghost readable = |row: Option<Seq<Seq<char>>>| row_transaction(row) is Some;
    for item in it: items.into_iter()
        invariant
            it.seq() == items@,
            rows == items@.map_values(|item: Result<StringRecord, csv::Error>| row_of(item)),
            readable == |row: Option<Seq<Seq<char>>>| row_transaction(row) is Some,
            forall|i: int| 0 <= i < it.index() ==> readable(#[trigger] rows[i]),
            db@ == run(old(db)@, feed_of(rows, it.index() as nat)),
            old(db).wf() ==> db.wf(),
            log@ == old(log)@ + diagnostics(old(db)@, feed_of(rows, it.index() as nat)),
    {
        let ghost at = it.index();
        let read = match item {
            Ok(record) => Transaction::try_from(&record),
            Err(error) => Err(PaymentsEngineError::Csv(error)),
        };
        let txn = match read {
            Ok(txn) => txn,
            Err(error) => {
                proof {
                    lemma_leading(rows, readable, at);
                }
                return Err(error);
            },
        };
        proof {
            let feed = feed_of(rows, (at + 1) as nat);
            assert(feed.drop_last() =~= feed_of(rows, at as nat));
        }
        if let Err(reason) = handle_transaction(db, txn) {
            log.push(Diagnostic { transaction: txn, reason });
        }
    }
    proof {
        lemma_leading(rows, readable, rows.len() as int);
    }
    Ok(())
}

/// Runs the engine over `input`, a feed in CSV: a header row, then one row
/// for each transaction.
///
/// The rows are handled in order up to the first one that is not
/// well-formed CSV or stands for no transaction. That row's error is
/// returned; the transactions before it have been handled.
pub fn run_engine(input: &[u8], db: &mut Database, log: &mut Vec<Diagnostic>) -> (result: Result<
    (),
    PaymentsEngineError,
>)
    ensures
        ({
            let rows = csv_rows(input@);
            let feed = feed_of(rows, readable_rows(rows));
            &&& final(db)@ == run(old(db)@, feed)
            &&& old(db).wf() ==> final(db).wf()
            &&& final(log)@ == old(log)@ + diagnostics(old(db)@, feed)
            &&& match result {
                Ok(_) => readable_rows(rows) == rows.len(),
                Err(error) => readable_rows(rows) < rows.len() && fails_with(
                    rows[readable_rows(rows) as int],
                    error,
                ),
            }
        }),
{
    process_records(read_records(input), db, log)
}

} // verus!
