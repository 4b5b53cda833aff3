//! Records of a CSV feed, and the transactions they stand for.

use csv::StringRecord;
use vstd::prelude::*;

use crate::decimal::{amount_of, parse_amount, parse_unsigned, strip_spaces, unsigned_of, without_spaces};
use crate::error::PaymentsEngineError;
use crate::transaction::{Transaction, TransactionType};

verus! {

/// `csv::StringRecord`, one record of a CSV file. All that is said of it is
/// said of its fields, which go by the name of `record_fields`.
#[verifier::external_type_specification]
#[verifier::external_body]
pub struct ExStringRecord(csv::StringRecord);

/// `csv::Error`, what a CSV reader reports where it cannot go on as usual.
/// It is carried through and never looked into.
#[verifier::external_type_specification]
#[verifier::external_body]
pub struct ExCsvError(csv::Error);

/// The fields that a `csv::StringRecord` holds, in their order, each as
/// the characters of its text.
pub uninterp spec fn record_fields(record: StringRecord) -> Seq<Seq<char>>;

/// `csv::StringRecord::get` hands out the text of the field at `index`,
/// counted from zero, and `None` where the record has no field there. It
/// is taken on trust that it does so for every record and every index.
pub assume_specification<'a>[ csv::StringRecord::get ](
    record: &'a StringRecord,
    index: usize,
) -> (field: Option<&'a str>)
    ensures
        match field {
            Some(text) => index < record_fields(*record).len() && text@ == record_fields(
                *record,
            )[index as int],
            None => index >= record_fields(*record).len(),
        },
;

/// The kind of transaction that `token` names.
pub open spec fn kind_named(token: Seq<char>) -> Option<TransactionType> {
    if token == "deposit"@ {
        Some(TransactionType::Deposit)
    } else if token == "withdrawal"@ {
        Some(TransactionType::Withdrawal)
    } else if token == "dispute"@ {
        Some(TransactionType::Dispute)
    } else if token == "resolve"@ {
        Some(TransactionType::Resolve)
    } else if token == "chargeback"@ {
        Some(TransactionType::ChargeBack)
    } else {
        None
    }
}

/// The amount that the fields of a record give: none where the record has
/// no fourth field or a blank one.
pub open spec fn amount_given(fields: Seq<Seq<char>>) -> Result<Option<u64>, PaymentsEngineError> {
    if fields.len() <= 3 || without_spaces(fields[3]).len() == 0 {
        Ok(None)
    } else {
        match amount_of(without_spaces(fields[3])) {
            Some(amount) => Ok(Some(amount)),
            None => Err(PaymentsEngineError::InvalidAmount),
        }
    }
}

/// The transaction that the fields of a record stand for: the kind, the
/// client, the transaction id and, where there is one, the amount. Spaces
/// in the three numbers do not count.
pub open spec fn decoded(fields: Seq<Seq<char>>) -> Result<Transaction, PaymentsEngineError> {
    if fields.len() == 0 || kind_named(fields[0]) is None {
        Err(PaymentsEngineError::UnknownTransactionType)
    } else if fields.len() < 2 {
        Err(PaymentsEngineError::MissingField)
    } else if unsigned_of(without_spaces(fields[1]), u16::MAX as nat) is None {
        Err(PaymentsEngineError::InvalidClientId)
    } else if fields.len() < 3 {
        Err(PaymentsEngineError::MissingField)
    } else if unsigned_of(without_spaces(fields[2]), u32::MAX as nat) is None {
        Err(PaymentsEngineError::InvalidTransactionId)
    } else {
        match amount_given(fields) {
            Err(e) => Err(e),
            Ok(amount) => Ok(
                Transaction {
                    transaction_type: kind_named(fields[0])->0,
                    client_id: unsigned_of(without_spaces(fields[1]), u16::MAX as nat)->0 as u16,
                    txn_id: unsigned_of(without_spaces(fields[2]), u32::MAX as nat)->0 as u32,
                    amount,
                },
            ),
        }
    }
}

/// Whether `text` is `word`, character by character.
fn spells(text: &str, word: &str) -> (same: bool)
    ensures
        same == (text@ == word@),
{
    let a = collect(text);
    let b = collect(word);
    if a.len() != b.len() {
        return false;
    }
    let mut at: usize = 0;
    while at < a.len()
        invariant
            a@ == text@,
            b@ == word@,
            a.len() == b.len(),
            at <= a.len(),
            a@.take(at as int) == b@.take(at as int),
        decreases a.len() - at,
    {
        if a[at] != b[at] {
            return false;
        }
        at += 1;
    }
    proof {
        assert(a@.take(a.len() as int) =~= a@);
        assert(b@.take(b.len() as int) =~= b@);
    }
    true
}

/// The characters of `text`.
fn collect(text: &str) -> (chars: Vec<char>)
    ensures
        chars@ == text@,
{
    let mut chars: Vec<char> = Vec::new();
    for c in it: text.chars()
        invariant
            it.seq() == text@,
            chars@ == text@.take(it.index()),
    {
        chars.push(c);
    }
    chars
}

/// The kind of transaction that the first of the fields of a record names.
pub open spec fn kind_given(fields: Seq<Seq<char>>) -> Result<
    TransactionType,
    PaymentsEngineError,
> {
    if fields.len() > 0 && kind_named(fields[0]) is Some {
        Ok(kind_named(fields[0])->0)
    } else {
        Err(PaymentsEngineError::UnknownTransactionType)
    }
}

impl vstd::std_specs::convert::TryFromSpecImpl<&StringRecord> for TransactionType {
    open spec fn obeys_try_from_spec() -> bool {
        true
    }

    open spec fn try_from_spec(record: &StringRecord) -> Result<Self, PaymentsEngineError> {
        kind_given(record_fields(*record))
    }
}

impl TryFrom<&StringRecord> for TransactionType {
    type Error = PaymentsEngineError;

    /// The kind of transaction that the first field of `record` names.
    fn try_from(record: &StringRecord) -> (kind: Result<TransactionType, PaymentsEngineError>) {
        let token = match record.get(0) {
            Some(token) => token,
            None => return Err(PaymentsEngineError::UnknownTransactionType),
        };
        if spells(token, "deposit") {
            Ok(TransactionType::Deposit)
        } else if spells(token, "withdrawal") {
            Ok(TransactionType::Withdrawal)
        } else if spells(token, "dispute") {
            Ok(TransactionType::Dispute)
        } else if spells(token, "resolve") {
            Ok(TransactionType::Resolve)
        } else if spells(token, "chargeback") {
            Ok(TransactionType::ChargeBack)
        } else {
            Err(PaymentsEngineError::UnknownTransactionType)
        }
    }
}

/// The number that `field` gives, spaces left out, if it is one that is no
/// greater than `max`.
fn number_in(field: &str, max: u64) -> (number: Option<u64>)
    ensures
        match number {
            Some(n) => unsigned_of(without_spaces(field@), max as nat) == Some(n as nat),
            None => unsigned_of(without_spaces(field@), max as nat) is None,
        },
{
    let chars = strip_spaces(field);
    parse_unsigned(&chars, max)
}

impl vstd::std_specs::convert::TryFromSpecImpl<&StringRecord> for Transaction {
    open spec fn obeys_try_from_spec() -> bool {
        true
    }

    open spec fn try_from_spec(record: &StringRecord) -> Result<Self, PaymentsEngineError> {
        decoded(record_fields(*record))
    }
}

impl TryFrom<&StringRecord> for Transaction {
    type Error = PaymentsEngineError;

    /// The transaction that `record` stands for.
    fn try_from(record: &StringRecord) -> (txn: Result<Transaction, PaymentsEngineError>) {
        let transaction_type = TransactionType::try_from(record)?;
        let client_id = match record.get(1) {
            None => return Err(PaymentsEngineError::MissingField),
            Some(field) => match number_in(field, u16::MAX as u64) {
                None => return Err(PaymentsEngineError::InvalidClientId),
                Some(number) => number as u16,
            },
        };
        let txn_id = match record.get(2) {
            None => return Err(PaymentsEngineError::MissingField),
            Some(field) => match number_in(field, u32::MAX as u64) {
                None => return Err(PaymentsEngineError::InvalidTransactionId),
                Some(number) => number as u32,
            },
        };
        let amount = match record.get(3) {
            None => None,
            Some(field) => {
                let chars = strip_spaces(field);
                if chars.len() == 0 {
                    None
                } else {
                    match parse_amount(&chars) {
                        None => return Err(PaymentsEngineError::InvalidAmount),
                        Some(amount) => Some(amount),
                    }
                }
            },
        };
        Ok(Transaction { transaction_type, client_id, txn_id, amount })
    }
}

} // verus!
